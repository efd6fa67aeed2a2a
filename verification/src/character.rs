//! Character records and their DTOs.

use vstd::prelude::*;

use crate::deep_clone::{DeepClone, Reshape};
use crate::entity::{CreateDto, Entity, ReadDto, Selector, UpdateDto};
use crate::links::{Images, ImagesView};

verus! {

/// Mathematical model of a character's appearance in a work.
pub struct CharacterMediaView {
    pub role: Seq<char>,
    pub media: Seq<char>,
}

/// A character's appearance in a work.
#[derive(Debug, Clone, PartialEq, Eq)]
pub struct CharacterMedia {
    pub role: String,
    pub media: String,
}

impl DeepView for CharacterMedia {
    type V = CharacterMediaView;

    open spec fn deep_view(&self) -> CharacterMediaView {
        CharacterMediaView {
            role: self.role.deep_view(),
            media: self.media.deep_view(),
        }
    }
}

impl DeepClone for CharacterMedia {
    fn deep_clone(&self) -> (r: Self)
        ensures
            r.deep_view() == self.deep_view(),
    {
        CharacterMedia {
            role: self.role.deep_clone(),
            media: self.media.deep_clone(),
        }
    }
}

/// DTO shape of a character's appearance in a work.
#[derive(Debug, Clone, PartialEq, Eq)]
pub struct CharacterMediaDto {
    pub role: String,
    pub media: String,
}

impl DeepView for CharacterMediaDto {
    type V = CharacterMediaView;

    open spec fn deep_view(&self) -> CharacterMediaView {
        CharacterMediaView {
            role: self.role.deep_view(),
            media: self.media.deep_view(),
        }
    }
}

impl Reshape<CharacterMedia> for CharacterMediaDto {
    fn reshape(a: &CharacterMedia) -> (r: Self)
        ensures
            r.deep_view() == a.deep_view(),
    {
        CharacterMediaDto {
            role: a.role.deep_clone(),
            media: a.media.deep_clone(),
        }
    }
}

impl Reshape<CharacterMediaDto> for CharacterMedia {
    fn reshape(a: &CharacterMediaDto) -> (r: Self)
        ensures
            r.deep_view() == a.deep_view(),
    {
        CharacterMedia {
            role: a.role.deep_clone(),
            media: a.media.deep_clone(),
        }
    }
}

/// Mathematical model of a character's voice actor.
pub struct CharacterVoiceView {
    pub language: Seq<char>,
    pub person: Seq<char>,
}

/// A character's voice actor.
#[derive(Debug, Clone, PartialEq, Eq)]
pub struct CharacterVoice {
    pub language: String,
    pub person: String,
}

impl DeepView for CharacterVoice {
    type V = CharacterVoiceView;

    open spec fn deep_view(&self) -> CharacterVoiceView {
        CharacterVoiceView {
            language: self.language.deep_view(),
            person: self.person.deep_view(),
        }
    }
}

impl DeepClone for CharacterVoice {
    fn deep_clone(&self) -> (r: Self)
        ensures
            r.deep_view() == self.deep_view(),
    {
        CharacterVoice {
            language: self.language.deep_clone(),
            person: self.person.deep_clone(),
        }
    }
}

/// DTO shape of a character's voice actor.
#[derive(Debug, Clone, PartialEq, Eq)]
pub struct CharacterVoiceDto {
    pub language: String,
    pub person: String,
}

impl DeepView for CharacterVoiceDto {
    type V = CharacterVoiceView;

    open spec fn deep_view(&self) -> CharacterVoiceView {
        CharacterVoiceView {
            language: self.language.deep_view(),
            person: self.person.deep_view(),
        }
    }
}

impl Reshape<CharacterVoice> for CharacterVoiceDto {
    fn reshape(a: &CharacterVoice) -> (r: Self)
        ensures
            r.deep_view() == a.deep_view(),
    {
        CharacterVoiceDto {
            language: a.language.deep_clone(),
            person: a.person.deep_clone(),
        }
    }
}

impl Reshape<CharacterVoiceDto> for CharacterVoice {
    fn reshape(a: &CharacterVoiceDto) -> (r: Self)
        ensures
            r.deep_view() == a.deep_view(),
    {
        CharacterVoice {
            language: a.language.deep_clone(),
            person: a.person.deep_clone(),
        }
    }
}

/// Mathematical model of a simplified character reference.
pub struct CharacterReferenceView {
    pub mal_id: u64,
    pub url: Seq<char>,
    pub images: ImagesView,
    pub name: Seq<char>,
}

/// A simplified character reference.
#[derive(Debug, Clone, PartialEq, Eq)]
pub struct CharacterReference {
    pub mal_id: u64,
    pub url: String,
    pub images: Images,
    pub name: String,
}

impl DeepView for CharacterReference {
    type V = CharacterReferenceView;

    open spec fn deep_view(&self) -> CharacterReferenceView {
        CharacterReferenceView {
            mal_id: self.mal_id,
            url: self.url.deep_view(),
            images: self.images.deep_view(),
            name: self.name.deep_view(),
        }
    }
}

impl DeepClone for CharacterReference {
    fn deep_clone(&self) -> (r: Self)
        ensures
            r.deep_view() == self.deep_view(),
    {
        CharacterReference {
            mal_id: self.mal_id,
            url: self.url.deep_clone(),
            images: self.images.deep_clone(),
            name: self.name.deep_clone(),
        }
    }
}

/// Mathematical model of a character record.
pub struct CharacterView {
    pub id: Option<Seq<char>>,
    pub mal_id: u64,
    pub url: Seq<char>,
    pub images: ImagesView,
    pub name: Seq<char>,
    pub name_kanji: Seq<char>,
    pub nicknames: Seq<Seq<char>>,
    pub favorites: u64,
    pub about: Seq<char>,
    pub anime: Seq<CharacterMediaView>,
    pub manga: Seq<CharacterMediaView>,
    pub voices: Seq<CharacterVoiceView>,
}

/// A character record.
#[derive(Debug, Clone, PartialEq, Eq)]
pub struct Character {
    pub id: Option<String>,
    pub mal_id: u64,
    pub url: String,
    pub images: Images,
    pub name: String,
    pub name_kanji: String,
    pub nicknames: Vec<String>,
    pub favorites: u64,
    pub about: String,
    pub anime: Vec<CharacterMedia>,
    pub manga: Vec<CharacterMedia>,
    pub voices: Vec<CharacterVoice>,
}

impl DeepView for Character {
    type V = CharacterView;

    open spec fn deep_view(&self) -> CharacterView {
        CharacterView {
            id: self.id.deep_view(),
            mal_id: self.mal_id,
            url: self.url.deep_view(),
            images: self.images.deep_view(),
            name: self.name.deep_view(),
            name_kanji: self.name_kanji.deep_view(),
            nicknames: self.nicknames.deep_view(),
            favorites: self.favorites,
            about: self.about.deep_view(),
            anime: self.anime.deep_view(),
            manga: self.manga.deep_view(),
            voices: self.voices.deep_view(),
        }
    }
}

impl DeepClone for Character {
    fn deep_clone(&self) -> (r: Self)
        ensures
            r.deep_view() == self.deep_view(),
    {
        Character {
            id: self.id.deep_clone(),
            mal_id: self.mal_id,
            url: self.url.deep_clone(),
            images: self.images.deep_clone(),
            name: self.name.deep_clone(),
            name_kanji: self.name_kanji.deep_clone(),
            nicknames: self.nicknames.deep_clone(),
            favorites: self.favorites,
            about: self.about.deep_clone(),
            anime: self.anime.deep_clone(),
            manga: self.manga.deep_clone(),
            voices: self.voices.deep_clone(),
        }
    }
}

impl Entity for Character {
    open spec fn model_id(m: CharacterView) -> Option<Seq<char>> {
        m.id
    }

    open spec fn model_with_id(m: CharacterView, id: Option<Seq<char>>) -> CharacterView {
        CharacterView { id, ..m }
    }

    proof fn lemma_model_with_id(m: CharacterView, id: Option<Seq<char>>) {
    }

    fn id(&self) -> (r: Option<String>) {
        self.id.deep_clone()
    }

    fn with_id(self, id: Option<String>) -> (r: Self) {
        Character { id, ..self }
    }
}

/// Read DTO of a character: the record as exposed externally.
#[derive(Debug, Clone, PartialEq, Eq)]
pub struct CharacterDto {
    pub id: Option<String>,
    pub mal_id: u64,
    pub url: String,
    pub images: Images,
    pub name: String,
    pub name_kanji: String,
    pub nicknames: Vec<String>,
    pub favorites: u64,
    pub about: String,
    pub anime: Vec<CharacterMediaDto>,
    pub manga: Vec<CharacterMediaDto>,
    pub voices: Vec<CharacterVoiceDto>,
}

impl DeepView for CharacterDto {
    type V = CharacterView;

    open spec fn deep_view(&self) -> CharacterView {
        CharacterView {
            id: self.id.deep_view(),
            mal_id: self.mal_id,
            url: self.url.deep_view(),
            images: self.images.deep_view(),
            name: self.name.deep_view(),
            name_kanji: self.name_kanji.deep_view(),
            nicknames: self.nicknames.deep_view(),
            favorites: self.favorites,
            about: self.about.deep_view(),
            anime: self.anime.deep_view(),
            manga: self.manga.deep_view(),
            voices: self.voices.deep_view(),
        }
    }
}

impl ReadDto<Character> for CharacterDto {
    open spec fn of_model(m: CharacterView) -> CharacterView {
        m
    }

    fn of_entity(e: &Character) -> (r: Self) {
        CharacterDto {
            id: e.id.deep_clone(),
            mal_id: e.mal_id,
            url: e.url.deep_clone(),
            images: e.images.deep_clone(),
            name: e.name.deep_clone(),
            name_kanji: e.name_kanji.deep_clone(),
            nicknames: e.nicknames.deep_clone(),
            favorites: e.favorites,
            about: e.about.deep_clone(),
            anime: Reshape::reshape(&e.anime),
            manga: Reshape::reshape(&e.manga),
            voices: Reshape::reshape(&e.voices),
        }
    }
}

/// Create DTO of a character: external input for a new record; the identifier is left for storage to assign.
#[derive(Debug, Clone, PartialEq, Eq)]
pub struct CreateCharacterDto {
    pub mal_id: u64,
    pub url: String,
    pub images: Images,
    pub name: String,
    pub name_kanji: String,
    pub nicknames: Vec<String>,
    pub favorites: u64,
    pub about: String,
    pub anime: Vec<CharacterMediaDto>,
    pub manga: Vec<CharacterMediaDto>,
    pub voices: Vec<CharacterVoiceDto>,
}

impl CreateDto<Character> for CreateCharacterDto {
    open spec fn entity_model(&self) -> CharacterView {
        CharacterView {
            id: None,
            mal_id: self.mal_id,
            url: self.url.deep_view(),
            images: self.images.deep_view(),
            name: self.name.deep_view(),
            name_kanji: self.name_kanji.deep_view(),
            nicknames: self.nicknames.deep_view(),
            favorites: self.favorites,
            about: self.about.deep_view(),
            anime: self.anime.deep_view(),
            manga: self.manga.deep_view(),
            voices: self.voices.deep_view(),
        }
    }

    fn into_entity(self) -> (e: Character) {
        Character {
            id: None,
            mal_id: self.mal_id,
            url: self.url,
            images: self.images,
            name: self.name,
            name_kanji: self.name_kanji,
            nicknames: self.nicknames,
            favorites: self.favorites,
            about: self.about,
            anime: Reshape::reshape(&self.anime),
            manga: Reshape::reshape(&self.manga),
            voices: Reshape::reshape(&self.voices),
        }
    }
}

/// Update DTO of a character: every field optional, absence meaning
/// "leave unchanged".
#[derive(Debug, Clone, PartialEq, Eq)]
pub struct UpdateCharacterDto {
    pub mal_id: Option<u64>,
    pub url: Option<String>,
    pub images: Option<Images>,
    pub name: Option<String>,
    pub name_kanji: Option<String>,
    pub nicknames: Option<Vec<String>>,
    pub favorites: Option<u64>,
    pub about: Option<String>,
    pub anime: Option<Vec<CharacterMediaDto>>,
    pub manga: Option<Vec<CharacterMediaDto>>,
    pub voices: Option<Vec<CharacterVoiceDto>>,
}

impl UpdateDto<Character> for UpdateCharacterDto {
    open spec fn merged(&self, m: CharacterView) -> CharacterView {
        CharacterView {
            id: m.id,
            mal_id: if self.mal_id is Some {
                self.mal_id->0
            } else {
                m.mal_id
            },
            url: if self.url is Some {
                (self.url->0)@
            } else {
                m.url
            },
            images: if self.images is Some {
                (self.images->0).deep_view()
            } else {
                m.images
            },
            name: if self.name is Some {
                (self.name->0)@
            } else {
                m.name
            },
            name_kanji: if self.name_kanji is Some {
                (self.name_kanji->0)@
            } else {
                m.name_kanji
            },
            nicknames: if self.nicknames is Some {
                (self.nicknames->0).deep_view()
            } else {
                m.nicknames
            },
            favorites: if self.favorites is Some {
                self.favorites->0
            } else {
                m.favorites
            },
            about: if self.about is Some {
                (self.about->0)@
            } else {
                m.about
            },
            anime: if self.anime is Some {
                (self.anime->0).deep_view()
            } else {
                m.anime
            },
            manga: if self.manga is Some {
                (self.manga->0).deep_view()
            } else {
                m.manga
            },
            voices: if self.voices is Some {
                (self.voices->0).deep_view()
            } else {
                m.voices
            },
        }
    }

    proof fn lemma_merged_id(&self, m: CharacterView) {
    }

    fn apply(&self, e: &Character) -> (r: Character) {
        Character {
            id: e.id.deep_clone(),
            mal_id: match &self.mal_id {
                Some(v) => *v,
                None => e.mal_id,
            },
            url: match &self.url {
                Some(v) => v.deep_clone(),
                None => e.url.deep_clone(),
            },
            images: match &self.images {
                Some(v) => v.deep_clone(),
                None => e.images.deep_clone(),
            },
            name: match &self.name {
                Some(v) => v.deep_clone(),
                None => e.name.deep_clone(),
            },
            name_kanji: match &self.name_kanji {
                Some(v) => v.deep_clone(),
                None => e.name_kanji.deep_clone(),
            },
            nicknames: match &self.nicknames {
                Some(v) => v.deep_clone(),
                None => e.nicknames.deep_clone(),
            },
            favorites: match &self.favorites {
                Some(v) => *v,
                None => e.favorites,
            },
            about: match &self.about {
                Some(v) => v.deep_clone(),
                None => e.about.deep_clone(),
            },
            anime: match &self.anime {
                Some(v) => Reshape::reshape(v),
                None => e.anime.deep_clone(),
            },
            manga: match &self.manga {
                Some(v) => Reshape::reshape(v),
                None => e.manga.deep_clone(),
            },
            voices: match &self.voices {
                Some(v) => Reshape::reshape(v),
                None => e.voices.deep_clone(),
            },
        }
    }
}

/// Equality conditions on a character fields; a record matches when
/// every present condition holds, as with the storage engine's
/// field-value filter documents.
#[derive(Debug, Clone, PartialEq, Eq)]
pub struct CharacterFilter {
    pub mal_id: Option<u64>,
    pub name: Option<String>,
}

impl Selector<Character> for CharacterFilter {
    open spec fn selects(&self, m: CharacterView) -> bool {
        &&& (self.mal_id is Some ==> m.mal_id == self.mal_id->0)
        &&& (self.name is Some ==> m.name == (self.name->0)@)
    }

    fn test(&self, e: &Character) -> (b: bool) {
        let mal_id_ok = match &self.mal_id {
            Some(v) => e.mal_id == *v,
            None => true,
        };
        let name_ok = match &self.name {
            Some(v) => e.name == *v,
            None => true,
        };
        mal_id_ok && name_ok
    }
}

} // verus!
