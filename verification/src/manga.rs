//! Manga records and their DTOs.
//!
//! Publication instants are carried as milliseconds since the epoch.

use vstd::prelude::*;

use crate::deep_clone::{DeepClone, Reshape};
use crate::entity::{CreateDto, Entity, ReadDto, Selector, UpdateDto};
use crate::genre::{Genre, GenreView};
use crate::links::{ExternalLink, ExternalLinkView, Images, ImagesView};
use crate::title_meta::{MalEntity, MalEntityView, Relation, RelationView, Title, TitleView};

verus! {

/// Mathematical model of one end of a publication range, by calendar parts.
pub struct PublishedPropFromToView {
    pub day: i32,
    pub month: i32,
    pub year: i32,
}

/// One end of a publication range, by calendar parts.
#[derive(Debug, Clone, PartialEq, Eq)]
pub struct PublishedPropFromTo {
    pub day: i32,
    pub month: i32,
    pub year: i32,
}

impl DeepView for PublishedPropFromTo {
    type V = PublishedPropFromToView;

    open spec fn deep_view(&self) -> PublishedPropFromToView {
        PublishedPropFromToView {
            day: self.day,
            month: self.month,
            year: self.year,
        }
    }
}

impl DeepClone for PublishedPropFromTo {
    fn deep_clone(&self) -> (r: Self)
        ensures
            r.deep_view() == self.deep_view(),
    {
        PublishedPropFromTo {
            day: self.day,
            month: self.month,
            year: self.year,
        }
    }
}

/// DTO shape of one end of a publication range, by calendar parts.
#[derive(Debug, Clone, PartialEq, Eq)]
pub struct PublishedPropFromToDto {
    pub day: i32,
    pub month: i32,
    pub year: i32,
}

impl DeepView for PublishedPropFromToDto {
    type V = PublishedPropFromToView;

    open spec fn deep_view(&self) -> PublishedPropFromToView {
        PublishedPropFromToView {
            day: self.day,
            month: self.month,
            year: self.year,
        }
    }
}

impl Reshape<PublishedPropFromTo> for PublishedPropFromToDto {
    fn reshape(a: &PublishedPropFromTo) -> (r: Self)
        ensures
            r.deep_view() == a.deep_view(),
    {
        PublishedPropFromToDto {
            day: a.day,
            month: a.month,
            year: a.year,
        }
    }
}

impl Reshape<PublishedPropFromToDto> for PublishedPropFromTo {
    fn reshape(a: &PublishedPropFromToDto) -> (r: Self)
        ensures
            r.deep_view() == a.deep_view(),
    {
        PublishedPropFromTo {
            day: a.day,
            month: a.month,
            year: a.year,
        }
    }
}

/// Mathematical model of the publication range properties.
pub struct PublishedPropView {
    pub from: PublishedPropFromToView,
    pub to: PublishedPropFromToView,
    pub string: Seq<char>,
}

/// The publication range properties.
#[derive(Debug, Clone, PartialEq, Eq)]
pub struct PublishedProp {
    pub from: PublishedPropFromTo,
    pub to: PublishedPropFromTo,
    pub string: String,
}

impl DeepView for PublishedProp {
    type V = PublishedPropView;

    open spec fn deep_view(&self) -> PublishedPropView {
        PublishedPropView {
            from: self.from.deep_view(),
            to: self.to.deep_view(),
            string: self.string.deep_view(),
        }
    }
}

impl DeepClone for PublishedProp {
    fn deep_clone(&self) -> (r: Self)
        ensures
            r.deep_view() == self.deep_view(),
    {
        PublishedProp {
            from: self.from.deep_clone(),
            to: self.to.deep_clone(),
            string: self.string.deep_clone(),
        }
    }
}

/// DTO shape of the publication range properties.
#[derive(Debug, Clone, PartialEq, Eq)]
pub struct PublishedPropDto {
    pub from: PublishedPropFromToDto,
    pub to: PublishedPropFromToDto,
    pub string: String,
}

impl DeepView for PublishedPropDto {
    type V = PublishedPropView;

    open spec fn deep_view(&self) -> PublishedPropView {
        PublishedPropView {
            from: self.from.deep_view(),
            to: self.to.deep_view(),
            string: self.string.deep_view(),
        }
    }
}

impl Reshape<PublishedProp> for PublishedPropDto {
    fn reshape(a: &PublishedProp) -> (r: Self)
        ensures
            r.deep_view() == a.deep_view(),
    {
        PublishedPropDto {
            from: Reshape::reshape(&a.from),
            to: Reshape::reshape(&a.to),
            string: a.string.deep_clone(),
        }
    }
}

impl Reshape<PublishedPropDto> for PublishedProp {
    fn reshape(a: &PublishedPropDto) -> (r: Self)
        ensures
            r.deep_view() == a.deep_view(),
    {
        PublishedProp {
            from: Reshape::reshape(&a.from),
            to: Reshape::reshape(&a.to),
            string: a.string.deep_clone(),
        }
    }
}

/// Mathematical model of publication information, with instants in milliseconds.
pub struct PublishedView {
    pub from: Option<i64>,
    pub to: Option<i64>,
    pub prop: PublishedPropView,
}

/// Publication information, with instants in milliseconds.
#[derive(Debug, Clone, PartialEq, Eq)]
pub struct Published {
    pub from: Option<i64>,
    pub to: Option<i64>,
    pub prop: PublishedProp,
}

impl DeepView for Published {
    type V = PublishedView;

    open spec fn deep_view(&self) -> PublishedView {
        PublishedView {
            from: self.from.deep_view(),
            to: self.to.deep_view(),
            prop: self.prop.deep_view(),
        }
    }
}

impl DeepClone for Published {
    fn deep_clone(&self) -> (r: Self)
        ensures
            r.deep_view() == self.deep_view(),
    {
        Published {
            from: self.from,
            to: self.to,
            prop: self.prop.deep_clone(),
        }
    }
}

/// DTO shape of publication information, with instants in milliseconds.
#[derive(Debug, Clone, PartialEq, Eq)]
pub struct PublishedDto {
    pub from: Option<i64>,
    pub to: Option<i64>,
    pub prop: PublishedPropDto,
}

impl DeepView for PublishedDto {
    type V = PublishedView;

    open spec fn deep_view(&self) -> PublishedView {
        PublishedView {
            from: self.from.deep_view(),
            to: self.to.deep_view(),
            prop: self.prop.deep_view(),
        }
    }
}

impl Reshape<Published> for PublishedDto {
    fn reshape(a: &Published) -> (r: Self)
        ensures
            r.deep_view() == a.deep_view(),
    {
        PublishedDto {
            from: a.from,
            to: a.to,
            prop: Reshape::reshape(&a.prop),
        }
    }
}

impl Reshape<PublishedDto> for Published {
    fn reshape(a: &PublishedDto) -> (r: Self)
        ensures
            r.deep_view() == a.deep_view(),
    {
        Published {
            from: a.from,
            to: a.to,
            prop: Reshape::reshape(&a.prop),
        }
    }
}

/// Mathematical model of a manga record.
pub struct MangaView {
    pub id: Option<Seq<char>>,
    pub mal_id: u64,
    pub images: ImagesView,
    pub approved: bool,
    pub titles: Seq<TitleView>,
    pub title: Seq<char>,
    pub title_english: Seq<char>,
    pub title_japanese: Seq<char>,
    pub title_synonyms: Seq<Seq<char>>,
    pub kind: Seq<char>,
    pub chapters: Option<u32>,
    pub volumes: Option<u32>,
    pub status: Seq<char>,
    pub publishing: bool,
    pub published: PublishedView,
    pub scored_by: u64,
    pub members: u64,
    pub favorites: u64,
    pub synopsis: Seq<char>,
    pub background: Seq<char>,
    pub authors: Seq<MalEntityView>,
    pub serializations: Seq<MalEntityView>,
    pub genres: Seq<GenreView>,
    pub explicit_genres: Seq<MalEntityView>,
    pub themes: Seq<MalEntityView>,
    pub demographics: Seq<MalEntityView>,
    pub relations: Seq<RelationView>,
    pub external: Seq<ExternalLinkView>,
}

/// A manga record.
#[derive(Debug, Clone, PartialEq, Eq)]
pub struct Manga {
    pub id: Option<String>,
    pub mal_id: u64,
    pub images: Images,
    pub approved: bool,
    pub titles: Vec<Title>,
    pub title: String,
    pub title_english: String,
    pub title_japanese: String,
    pub title_synonyms: Vec<String>,
    pub kind: String,
    pub chapters: Option<u32>,
    pub volumes: Option<u32>,
    pub status: String,
    pub publishing: bool,
    pub published: Published,
    pub scored_by: u64,
    pub members: u64,
    pub favorites: u64,
    pub synopsis: String,
    pub background: String,
    pub authors: Vec<MalEntity>,
    pub serializations: Vec<MalEntity>,
    pub genres: Vec<Genre>,
    pub explicit_genres: Vec<MalEntity>,
    pub themes: Vec<MalEntity>,
    pub demographics: Vec<MalEntity>,
    pub relations: Vec<Relation>,
    pub external: Vec<ExternalLink>,
}

impl DeepView for Manga {
    type V = MangaView;

    open spec fn deep_view(&self) -> MangaView {
        MangaView {
            id: self.id.deep_view(),
            mal_id: self.mal_id,
            images: self.images.deep_view(),
            approved: self.approved,
            titles: self.titles.deep_view(),
            title: self.title.deep_view(),
            title_english: self.title_english.deep_view(),
            title_japanese: self.title_japanese.deep_view(),
            title_synonyms: self.title_synonyms.deep_view(),
            kind: self.kind.deep_view(),
            chapters: self.chapters.deep_view(),
            volumes: self.volumes.deep_view(),
            status: self.status.deep_view(),
            publishing: self.publishing,
            published: self.published.deep_view(),
            scored_by: self.scored_by,
            members: self.members,
            favorites: self.favorites,
            synopsis: self.synopsis.deep_view(),
            background: self.background.deep_view(),
            authors: self.authors.deep_view(),
            serializations: self.serializations.deep_view(),
            genres: self.genres.deep_view(),
            explicit_genres: self.explicit_genres.deep_view(),
            themes: self.themes.deep_view(),
            demographics: self.demographics.deep_view(),
            relations: self.relations.deep_view(),
            external: self.external.deep_view(),
        }
    }
}

impl DeepClone for Manga {
    fn deep_clone(&self) -> (r: Self)
        ensures
            r.deep_view() == self.deep_view(),
    {
        Manga {
            id: self.id.deep_clone(),
            mal_id: self.mal_id,
            images: self.images.deep_clone(),
            approved: self.approved,
            titles: self.titles.deep_clone(),
            title: self.title.deep_clone(),
            title_english: self.title_english.deep_clone(),
            title_japanese: self.title_japanese.deep_clone(),
            title_synonyms: self.title_synonyms.deep_clone(),
            kind: self.kind.deep_clone(),
            chapters: self.chapters,
            volumes: self.volumes,
            status: self.status.deep_clone(),
            publishing: self.publishing,
            published: self.published.deep_clone(),
            scored_by: self.scored_by,
            members: self.members,
            favorites: self.favorites,
            synopsis: self.synopsis.deep_clone(),
            background: self.background.deep_clone(),
            authors: self.authors.deep_clone(),
            serializations: self.serializations.deep_clone(),
            genres: self.genres.deep_clone(),
            explicit_genres: self.explicit_genres.deep_clone(),
            themes: self.themes.deep_clone(),
            demographics: self.demographics.deep_clone(),
            relations: self.relations.deep_clone(),
            external: self.external.deep_clone(),
        }
    }
}

impl Entity for Manga {
    open spec fn model_id(m: MangaView) -> Option<Seq<char>> {
        m.id
    }

    open spec fn model_with_id(m: MangaView, id: Option<Seq<char>>) -> MangaView {
        MangaView { id, ..m }
    }

    proof fn lemma_model_with_id(m: MangaView, id: Option<Seq<char>>) {
    }

    fn id(&self) -> (r: Option<String>) {
        self.id.deep_clone()
    }

    fn with_id(self, id: Option<String>) -> (r: Self) {
        Manga { id, ..self }
    }
}

/// Read DTO of a manga: the record as exposed externally.
#[derive(Debug, Clone, PartialEq, Eq)]
pub struct MangaDto {
    pub id: Option<String>,
    pub mal_id: u64,
    pub images: Images,
    pub approved: bool,
    pub titles: Vec<Title>,
    pub title: String,
    pub title_english: String,
    pub title_japanese: String,
    pub title_synonyms: Vec<String>,
    pub kind: String,
    pub chapters: Option<u32>,
    pub volumes: Option<u32>,
    pub status: String,
    pub publishing: bool,
    pub published: PublishedDto,
    pub scored_by: u64,
    pub members: u64,
    pub favorites: u64,
    pub synopsis: String,
    pub background: String,
    pub authors: Vec<MalEntity>,
    pub serializations: Vec<MalEntity>,
    pub genres: Vec<Genre>,
    pub explicit_genres: Vec<MalEntity>,
    pub themes: Vec<MalEntity>,
    pub demographics: Vec<MalEntity>,
    pub relations: Vec<Relation>,
    pub external: Vec<ExternalLink>,
}

impl DeepView for MangaDto {
    type V = MangaView;

    open spec fn deep_view(&self) -> MangaView {
        MangaView {
            id: self.id.deep_view(),
            mal_id: self.mal_id,
            images: self.images.deep_view(),
            approved: self.approved,
            titles: self.titles.deep_view(),
            title: self.title.deep_view(),
            title_english: self.title_english.deep_view(),
            title_japanese: self.title_japanese.deep_view(),
            title_synonyms: self.title_synonyms.deep_view(),
            kind: self.kind.deep_view(),
            chapters: self.chapters.deep_view(),
            volumes: self.volumes.deep_view(),
            status: self.status.deep_view(),
            publishing: self.publishing,
            published: self.published.deep_view(),
            scored_by: self.scored_by,
            members: self.members,
            favorites: self.favorites,
            synopsis: self.synopsis.deep_view(),
            background: self.background.deep_view(),
            authors: self.authors.deep_view(),
            serializations: self.serializations.deep_view(),
            genres: self.genres.deep_view(),
            explicit_genres: self.explicit_genres.deep_view(),
            themes: self.themes.deep_view(),
            demographics: self.demographics.deep_view(),
            relations: self.relations.deep_view(),
            external: self.external.deep_view(),
        }
    }
}

impl ReadDto<Manga> for MangaDto {
    open spec fn of_model(m: MangaView) -> MangaView {
        m
    }

    fn of_entity(e: &Manga) -> (r: Self) {
        MangaDto {
            id: e.id.deep_clone(),
            mal_id: e.mal_id,
            images: e.images.deep_clone(),
            approved: e.approved,
            titles: e.titles.deep_clone(),
            title: e.title.deep_clone(),
            title_english: e.title_english.deep_clone(),
            title_japanese: e.title_japanese.deep_clone(),
            title_synonyms: e.title_synonyms.deep_clone(),
            kind: e.kind.deep_clone(),
            chapters: e.chapters,
            volumes: e.volumes,
            status: e.status.deep_clone(),
            publishing: e.publishing,
            published: Reshape::reshape(&e.published),
            scored_by: e.scored_by,
            members: e.members,
            favorites: e.favorites,
            synopsis: e.synopsis.deep_clone(),
            background: e.background.deep_clone(),
            authors: e.authors.deep_clone(),
            serializations: e.serializations.deep_clone(),
            genres: e.genres.deep_clone(),
            explicit_genres: e.explicit_genres.deep_clone(),
            themes: e.themes.deep_clone(),
            demographics: e.demographics.deep_clone(),
            relations: e.relations.deep_clone(),
            external: e.external.deep_clone(),
        }
    }
}

/// Create DTO of a manga: external input for a new record; the identifier is left for storage to assign.
#[derive(Debug, Clone, PartialEq, Eq)]
pub struct CreateMangaDto {
    pub mal_id: u64,
    pub images: Images,
    pub approved: bool,
    pub titles: Vec<Title>,
    pub title: String,
    pub title_english: String,
    pub title_japanese: String,
    pub title_synonyms: Vec<String>,
    pub kind: String,
    pub chapters: Option<u32>,
    pub volumes: Option<u32>,
    pub status: String,
    pub publishing: bool,
    pub published: PublishedDto,
    pub scored_by: u64,
    pub members: u64,
    pub favorites: u64,
    pub synopsis: String,
    pub background: String,
    pub authors: Vec<MalEntity>,
    pub serializations: Vec<MalEntity>,
    pub genres: Vec<Genre>,
    pub explicit_genres: Vec<MalEntity>,
    pub themes: Vec<MalEntity>,
    pub demographics: Vec<MalEntity>,
    pub relations: Vec<Relation>,
    pub external: Vec<ExternalLink>,
}

impl CreateDto<Manga> for CreateMangaDto {
    open spec fn entity_model(&self) -> MangaView {
        MangaView {
            id: None,
            mal_id: self.mal_id,
            images: self.images.deep_view(),
            approved: self.approved,
            titles: self.titles.deep_view(),
            title: self.title.deep_view(),
            title_english: self.title_english.deep_view(),
            title_japanese: self.title_japanese.deep_view(),
            title_synonyms: self.title_synonyms.deep_view(),
            kind: self.kind.deep_view(),
            chapters: self.chapters.deep_view(),
            volumes: self.volumes.deep_view(),
            status: self.status.deep_view(),
            publishing: self.publishing,
            published: self.published.deep_view(),
            scored_by: self.scored_by,
            members: self.members,
            favorites: self.favorites,
            synopsis: self.synopsis.deep_view(),
            background: self.background.deep_view(),
            authors: self.authors.deep_view(),
            serializations: self.serializations.deep_view(),
            genres: self.genres.deep_view(),
            explicit_genres: self.explicit_genres.deep_view(),
            themes: self.themes.deep_view(),
            demographics: self.demographics.deep_view(),
            relations: self.relations.deep_view(),
            external: self.external.deep_view(),
        }
    }

    fn into_entity(self) -> (e: Manga) {
        Manga {
            id: None,
            mal_id: self.mal_id,
            images: self.images,
            approved: self.approved,
            titles: self.titles,
            title: self.title,
            title_english: self.title_english,
            title_japanese: self.title_japanese,
            title_synonyms: self.title_synonyms,
            kind: self.kind,
            chapters: self.chapters,
            volumes: self.volumes,
            status: self.status,
            publishing: self.publishing,
            published: Reshape::reshape(&self.published),
            scored_by: self.scored_by,
            members: self.members,
            favorites: self.favorites,
            synopsis: self.synopsis,
            background: self.background,
            authors: self.authors,
            serializations: self.serializations,
            genres: self.genres,
            explicit_genres: self.explicit_genres,
            themes: self.themes,
            demographics: self.demographics,
            relations: self.relations,
            external: self.external,
        }
    }
}

/// Update DTO of a manga: every field optional, absence meaning
/// "leave unchanged".
#[derive(Debug, Clone, PartialEq, Eq)]
pub struct UpdateMangaDto {
    pub mal_id: Option<u64>,
    pub images: Option<Images>,
    pub approved: Option<bool>,
    pub titles: Option<Vec<Title>>,
    pub title: Option<String>,
    pub title_english: Option<String>,
    pub title_japanese: Option<String>,
    pub title_synonyms: Option<Vec<String>>,
    pub kind: Option<String>,
    pub chapters: Option<u32>,
    pub volumes: Option<u32>,
    pub status: Option<String>,
    pub publishing: Option<bool>,
    pub published: Option<PublishedDto>,
    pub scored_by: Option<u64>,
    pub members: Option<u64>,
    pub favorites: Option<u64>,
    pub synopsis: Option<String>,
    pub background: Option<String>,
    pub authors: Option<Vec<MalEntity>>,
    pub serializations: Option<Vec<MalEntity>>,
    pub genres: Option<Vec<Genre>>,
    pub explicit_genres: Option<Vec<MalEntity>>,
    pub themes: Option<Vec<MalEntity>>,
    pub demographics: Option<Vec<MalEntity>>,
    pub relations: Option<Vec<Relation>>,
    pub external: Option<Vec<ExternalLink>>,
}

impl UpdateDto<Manga> for UpdateMangaDto {
    open spec fn merged(&self, m: MangaView) -> MangaView {
        MangaView {
            id: m.id,
            mal_id: if self.mal_id is Some {
                self.mal_id->0
            } else {
                m.mal_id
            },
            images: if self.images is Some {
                (self.images->0).deep_view()
            } else {
                m.images
            },
            approved: if self.approved is Some {
                self.approved->0
            } else {
                m.approved
            },
            titles: if self.titles is Some {
                (self.titles->0).deep_view()
            } else {
                m.titles
            },
            title: if self.title is Some {
                (self.title->0)@
            } else {
                m.title
            },
            title_english: if self.title_english is Some {
                (self.title_english->0)@
            } else {
                m.title_english
            },
            title_japanese: if self.title_japanese is Some {
                (self.title_japanese->0)@
            } else {
                m.title_japanese
            },
            title_synonyms: if self.title_synonyms is Some {
                (self.title_synonyms->0).deep_view()
            } else {
                m.title_synonyms
            },
            kind: if self.kind is Some {
                (self.kind->0)@
            } else {
                m.kind
            },
            chapters: if self.chapters is Some {
                Some(self.chapters->0)
            } else {
                m.chapters
            },
            volumes: if self.volumes is Some {
                Some(self.volumes->0)
            } else {
                m.volumes
            },
            status: if self.status is Some {
                (self.status->0)@
            } else {
                m.status
            },
            publishing: if self.publishing is Some {
                self.publishing->0
            } else {
                m.publishing
            },
            published: if self.published is Some {
                (self.published->0).deep_view()
            } else {
                m.published
            },
            scored_by: if self.scored_by is Some {
                self.scored_by->0
            } else {
                m.scored_by
            },
            members: if self.members is Some {
                self.members->0
            } else {
                m.members
            },
            favorites: if self.favorites is Some {
                self.favorites->0
            } else {
                m.favorites
            },
            synopsis: if self.synopsis is Some {
                (self.synopsis->0)@
            } else {
                m.synopsis
            },
            background: if self.background is Some {
                (self.background->0)@
            } else {
                m.background
            },
            authors: if self.authors is Some {
                (self.authors->0).deep_view()
            } else {
                m.authors
            },
            serializations: if self.serializations is Some {
                (self.serializations->0).deep_view()
            } else {
                m.serializations
            },
            genres: if self.genres is Some {
                (self.genres->0).deep_view()
            } else {
                m.genres
            },
            explicit_genres: if self.explicit_genres is Some {
                (self.explicit_genres->0).deep_view()
            } else {
                m.explicit_genres
            },
            themes: if self.themes is Some {
                (self.themes->0).deep_view()
            } else {
                m.themes
            },
            demographics: if self.demographics is Some {
                (self.demographics->0).deep_view()
            } else {
                m.demographics
            },
            relations: if self.relations is Some {
                (self.relations->0).deep_view()
            } else {
                m.relations
            },
            external: if self.external is Some {
                (self.external->0).deep_view()
            } else {
                m.external
            },
        }
    }

    proof fn lemma_merged_id(&self, m: MangaView) {
    }

    fn apply(&self, e: &Manga) -> (r: Manga) {
        Manga {
            id: e.id.deep_clone(),
            mal_id: match &self.mal_id {
                Some(v) => *v,
                None => e.mal_id,
            },
            images: match &self.images {
                Some(v) => v.deep_clone(),
                None => e.images.deep_clone(),
            },
            approved: match &self.approved {
                Some(v) => *v,
                None => e.approved,
            },
            titles: match &self.titles {
                Some(v) => v.deep_clone(),
                None => e.titles.deep_clone(),
            },
            title: match &self.title {
                Some(v) => v.deep_clone(),
                None => e.title.deep_clone(),
            },
            title_english: match &self.title_english {
                Some(v) => v.deep_clone(),
                None => e.title_english.deep_clone(),
            },
            title_japanese: match &self.title_japanese {
                Some(v) => v.deep_clone(),
                None => e.title_japanese.deep_clone(),
            },
            title_synonyms: match &self.title_synonyms {
                Some(v) => v.deep_clone(),
                None => e.title_synonyms.deep_clone(),
            },
            kind: match &self.kind {
                Some(v) => v.deep_clone(),
                None => e.kind.deep_clone(),
            },
            chapters: match &self.chapters {
                Some(v) => Some(*v),
                None => e.chapters,
            },
            volumes: match &self.volumes {
                Some(v) => Some(*v),
                None => e.volumes,
            },
            status: match &self.status {
                Some(v) => v.deep_clone(),
                None => e.status.deep_clone(),
            },
            publishing: match &self.publishing {
                Some(v) => *v,
                None => e.publishing,
            },
            published: match &self.published {
                Some(v) => Reshape::reshape(v),
                None => e.published.deep_clone(),
            },
            scored_by: match &self.scored_by {
                Some(v) => *v,
                None => e.scored_by,
            },
            members: match &self.members {
                Some(v) => *v,
                None => e.members,
            },
            favorites: match &self.favorites {
                Some(v) => *v,
                None => e.favorites,
            },
            synopsis: match &self.synopsis {
                Some(v) => v.deep_clone(),
                None => e.synopsis.deep_clone(),
            },
            background: match &self.background {
                Some(v) => v.deep_clone(),
                None => e.background.deep_clone(),
            },
            authors: match &self.authors {
                Some(v) => v.deep_clone(),
                None => e.authors.deep_clone(),
            },
            serializations: match &self.serializations {
                Some(v) => v.deep_clone(),
                None => e.serializations.deep_clone(),
            },
            genres: match &self.genres {
                Some(v) => v.deep_clone(),
                None => e.genres.deep_clone(),
            },
            explicit_genres: match &self.explicit_genres {
                Some(v) => v.deep_clone(),
                None => e.explicit_genres.deep_clone(),
            },
            themes: match &self.themes {
                Some(v) => v.deep_clone(),
                None => e.themes.deep_clone(),
            },
            demographics: match &self.demographics {
                Some(v) => v.deep_clone(),
                None => e.demographics.deep_clone(),
            },
            relations: match &self.relations {
                Some(v) => v.deep_clone(),
                None => e.relations.deep_clone(),
            },
            external: match &self.external {
                Some(v) => v.deep_clone(),
                None => e.external.deep_clone(),
            },
        }
    }
}

/// Equality conditions on a manga fields; a record matches when
/// every present condition holds, as with the storage engine's
/// field-value filter documents.
#[derive(Debug, Clone, PartialEq, Eq)]
pub struct MangaFilter {
    pub mal_id: Option<u64>,
    pub title: Option<String>,
    pub kind: Option<String>,
    pub status: Option<String>,
    pub publishing: Option<bool>,
}

impl Selector<Manga> for MangaFilter {
    open spec fn selects(&self, m: MangaView) -> bool {
        &&& (self.mal_id is Some ==> m.mal_id == self.mal_id->0)
        &&& (self.title is Some ==> m.title == (self.title->0)@)
        &&& (self.kind is Some ==> m.kind == (self.kind->0)@)
        &&& (self.status is Some ==> m.status == (self.status->0)@)
        &&& (self.publishing is Some ==> m.publishing == self.publishing->0)
    }

    fn test(&self, e: &Manga) -> (b: bool) {
        let mal_id_ok = match &self.mal_id {
            Some(v) => e.mal_id == *v,
            None => true,
        };
        let title_ok = match &self.title {
            Some(v) => e.title == *v,
            None => true,
        };
        let kind_ok = match &self.kind {
            Some(v) => e.kind == *v,
            None => true,
        };
        let status_ok = match &self.status {
            Some(v) => e.status == *v,
            None => true,
        };
        let publishing_ok = match &self.publishing {
            Some(v) => e.publishing == *v,
            None => true,
        };
        mal_id_ok && title_ok && kind_ok && status_ok && publishing_ok
    }
}

} // verus!
