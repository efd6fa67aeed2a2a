//! Anime records and their DTOs.
//!
//! Airing instants are carried as milliseconds since the epoch.

use vstd::prelude::*;

use crate::deep_clone::{DeepClone, Reshape};
use crate::entity::{CreateDto, Entity, ReadDto, Selector, UpdateDto};
use crate::genre::{Genre, GenreView};
use crate::links::{ExternalLink, ExternalLinkView, Images, ImagesView, Trailer, TrailerView};
use crate::producer::{Producer, ProducerView};
use crate::title_meta::{MalEntity, MalEntityView, Relation, RelationView, Theme, ThemeView, Title, TitleView};

verus! {

/// Mathematical model of broadcast information.
pub struct BroadcastView {
    pub day: Seq<char>,
    pub time: Seq<char>,
    pub timezone: Seq<char>,
    pub string: Seq<char>,
}

/// Broadcast information.
#[derive(Debug, Clone, PartialEq, Eq)]
pub struct Broadcast {
    pub day: String,
    pub time: String,
    pub timezone: String,
    pub string: String,
}

impl DeepView for Broadcast {
    type V = BroadcastView;

    open spec fn deep_view(&self) -> BroadcastView {
        BroadcastView {
            day: self.day.deep_view(),
            time: self.time.deep_view(),
            timezone: self.timezone.deep_view(),
            string: self.string.deep_view(),
        }
    }
}

impl DeepClone for Broadcast {
    fn deep_clone(&self) -> (r: Self)
        ensures
            r.deep_view() == self.deep_view(),
    {
        Broadcast {
            day: self.day.deep_clone(),
            time: self.time.deep_clone(),
            timezone: self.timezone.deep_clone(),
            string: self.string.deep_clone(),
        }
    }
}

/// DTO shape of broadcast information.
#[derive(Debug, Clone, PartialEq, Eq)]
pub struct BroadcastDto {
    pub day: String,
    pub time: String,
    pub timezone: String,
    pub string: String,
}

impl DeepView for BroadcastDto {
    type V = BroadcastView;

    open spec fn deep_view(&self) -> BroadcastView {
        BroadcastView {
            day: self.day.deep_view(),
            time: self.time.deep_view(),
            timezone: self.timezone.deep_view(),
            string: self.string.deep_view(),
        }
    }
}

impl Reshape<Broadcast> for BroadcastDto {
    fn reshape(a: &Broadcast) -> (r: Self)
        ensures
            r.deep_view() == a.deep_view(),
    {
        BroadcastDto {
            day: a.day.deep_clone(),
            time: a.time.deep_clone(),
            timezone: a.timezone.deep_clone(),
            string: a.string.deep_clone(),
        }
    }
}

impl Reshape<BroadcastDto> for Broadcast {
    fn reshape(a: &BroadcastDto) -> (r: Self)
        ensures
            r.deep_view() == a.deep_view(),
    {
        Broadcast {
            day: a.day.deep_clone(),
            time: a.time.deep_clone(),
            timezone: a.timezone.deep_clone(),
            string: a.string.deep_clone(),
        }
    }
}

/// Mathematical model of one end of an airing range, by calendar parts.
pub struct AiredPropFromToView {
    pub day: i32,
    pub month: i32,
    pub year: i32,
}

/// One end of an airing range, by calendar parts.
#[derive(Debug, Clone, PartialEq, Eq)]
pub struct AiredPropFromTo {
    pub day: i32,
    pub month: i32,
    pub year: i32,
}

impl DeepView for AiredPropFromTo {
    type V = AiredPropFromToView;

    open spec fn deep_view(&self) -> AiredPropFromToView {
        AiredPropFromToView {
            day: self.day,
            month: self.month,
            year: self.year,
        }
    }
}

impl DeepClone for AiredPropFromTo {
    fn deep_clone(&self) -> (r: Self)
        ensures
            r.deep_view() == self.deep_view(),
    {
        AiredPropFromTo {
            day: self.day,
            month: self.month,
            year: self.year,
        }
    }
}

/// DTO shape of one end of an airing range, by calendar parts.
#[derive(Debug, Clone, PartialEq, Eq)]
pub struct AiredPropFromToDto {
    pub day: i32,
    pub month: i32,
    pub year: i32,
}

impl DeepView for AiredPropFromToDto {
    type V = AiredPropFromToView;

    open spec fn deep_view(&self) -> AiredPropFromToView {
        AiredPropFromToView {
            day: self.day,
            month: self.month,
            year: self.year,
        }
    }
}

impl Reshape<AiredPropFromTo> for AiredPropFromToDto {
    fn reshape(a: &AiredPropFromTo) -> (r: Self)
        ensures
            r.deep_view() == a.deep_view(),
    {
        AiredPropFromToDto {
            day: a.day,
            month: a.month,
            year: a.year,
        }
    }
}

impl Reshape<AiredPropFromToDto> for AiredPropFromTo {
    fn reshape(a: &AiredPropFromToDto) -> (r: Self)
        ensures
            r.deep_view() == a.deep_view(),
    {
        AiredPropFromTo {
            day: a.day,
            month: a.month,
            year: a.year,
        }
    }
}

/// Mathematical model of the airing range properties.
pub struct AiredPropView {
    pub from: AiredPropFromToView,
    pub to: AiredPropFromToView,
    pub string: Seq<char>,
}

/// The airing range properties.
#[derive(Debug, Clone, PartialEq, Eq)]
pub struct AiredProp {
    pub from: AiredPropFromTo,
    pub to: AiredPropFromTo,
    pub string: String,
}

impl DeepView for AiredProp {
    type V = AiredPropView;

    open spec fn deep_view(&self) -> AiredPropView {
        AiredPropView {
            from: self.from.deep_view(),
            to: self.to.deep_view(),
            string: self.string.deep_view(),
        }
    }
}

impl DeepClone for AiredProp {
    fn deep_clone(&self) -> (r: Self)
        ensures
            r.deep_view() == self.deep_view(),
    {
        AiredProp {
            from: self.from.deep_clone(),
            to: self.to.deep_clone(),
            string: self.string.deep_clone(),
        }
    }
}

/// DTO shape of the airing range properties.
#[derive(Debug, Clone, PartialEq, Eq)]
pub struct AiredPropDto {
    pub from: AiredPropFromToDto,
    pub to: AiredPropFromToDto,
    pub string: String,
}

impl DeepView for AiredPropDto {
    type V = AiredPropView;

    open spec fn deep_view(&self) -> AiredPropView {
        AiredPropView {
            from: self.from.deep_view(),
            to: self.to.deep_view(),
            string: self.string.deep_view(),
        }
    }
}

impl Reshape<AiredProp> for AiredPropDto {
    fn reshape(a: &AiredProp) -> (r: Self)
        ensures
            r.deep_view() == a.deep_view(),
    {
        AiredPropDto {
            from: Reshape::reshape(&a.from),
            to: Reshape::reshape(&a.to),
            string: a.string.deep_clone(),
        }
    }
}

impl Reshape<AiredPropDto> for AiredProp {
    fn reshape(a: &AiredPropDto) -> (r: Self)
        ensures
            r.deep_view() == a.deep_view(),
    {
        AiredProp {
            from: Reshape::reshape(&a.from),
            to: Reshape::reshape(&a.to),
            string: a.string.deep_clone(),
        }
    }
}

/// Mathematical model of airing information, with instants in milliseconds.
pub struct AiredView {
    pub from: Option<i64>,
    pub to: Option<i64>,
    pub prop: AiredPropView,
}

/// Airing information, with instants in milliseconds.
#[derive(Debug, Clone, PartialEq, Eq)]
pub struct Aired {
    pub from: Option<i64>,
    pub to: Option<i64>,
    pub prop: AiredProp,
}

impl DeepView for Aired {
    type V = AiredView;

    open spec fn deep_view(&self) -> AiredView {
        AiredView {
            from: self.from.deep_view(),
            to: self.to.deep_view(),
            prop: self.prop.deep_view(),
        }
    }
}

impl DeepClone for Aired {
    fn deep_clone(&self) -> (r: Self)
        ensures
            r.deep_view() == self.deep_view(),
    {
        Aired {
            from: self.from,
            to: self.to,
            prop: self.prop.deep_clone(),
        }
    }
}

/// DTO shape of airing information, with instants in milliseconds.
#[derive(Debug, Clone, PartialEq, Eq)]
pub struct AiredDto {
    pub from: Option<i64>,
    pub to: Option<i64>,
    pub prop: AiredPropDto,
}

impl DeepView for AiredDto {
    type V = AiredView;

    open spec fn deep_view(&self) -> AiredView {
        AiredView {
            from: self.from.deep_view(),
            to: self.to.deep_view(),
            prop: self.prop.deep_view(),
        }
    }
}

impl Reshape<Aired> for AiredDto {
    fn reshape(a: &Aired) -> (r: Self)
        ensures
            r.deep_view() == a.deep_view(),
    {
        AiredDto {
            from: a.from,
            to: a.to,
            prop: Reshape::reshape(&a.prop),
        }
    }
}

impl Reshape<AiredDto> for Aired {
    fn reshape(a: &AiredDto) -> (r: Self)
        ensures
            r.deep_view() == a.deep_view(),
    {
        Aired {
            from: a.from,
            to: a.to,
            prop: Reshape::reshape(&a.prop),
        }
    }
}

/// Mathematical model of an anime record.
pub struct AnimeView {
    pub id: Option<Seq<char>>,
    pub mal_id: u64,
    pub images: ImagesView,
    pub trailer: TrailerView,
    pub approved: bool,
    pub titles: Seq<TitleView>,
    pub title: Seq<char>,
    pub title_english: Seq<char>,
    pub title_japanese: Seq<char>,
    pub title_synonyms: Seq<Seq<char>>,
    pub kind: Seq<char>,
    pub source: Seq<char>,
    pub episodes: Option<u32>,
    pub status: Seq<char>,
    pub airing: bool,
    pub aired: Option<AiredView>,
    pub duration: Seq<char>,
    pub rating: Seq<char>,
    pub scored_by: u64,
    pub members: u64,
    pub favorites: u64,
    pub synopsis: Seq<char>,
    pub background: Seq<char>,
    pub season: Seq<char>,
    pub year: Option<u32>,
    pub broadcast: Option<BroadcastView>,
    pub producers: Seq<ProducerView>,
    pub licensors: Seq<MalEntityView>,
    pub studios: Seq<MalEntityView>,
    pub genres: Seq<GenreView>,
    pub explicit_genres: Seq<MalEntityView>,
    pub themes: Seq<MalEntityView>,
    pub demographics: Seq<MalEntityView>,
    pub relations: Seq<RelationView>,
    pub theme: Option<ThemeView>,
    pub external: Seq<ExternalLinkView>,
    pub streaming: Seq<ExternalLinkView>,
}

/// An anime record.
#[derive(Debug, Clone, PartialEq, Eq)]
pub struct Anime {
    pub id: Option<String>,
    pub mal_id: u64,
    pub images: Images,
    pub trailer: Trailer,
    pub approved: bool,
    pub titles: Vec<Title>,
    pub title: String,
    pub title_english: String,
    pub title_japanese: String,
    pub title_synonyms: Vec<String>,
    pub kind: String,
    pub source: String,
    pub episodes: Option<u32>,
    pub status: String,
    pub airing: bool,
    pub aired: Option<Aired>,
    pub duration: String,
    pub rating: String,
    pub scored_by: u64,
    pub members: u64,
    pub favorites: u64,
    pub synopsis: String,
    pub background: String,
    pub season: String,
    pub year: Option<u32>,
    pub broadcast: Option<Broadcast>,
    pub producers: Vec<Producer>,
    pub licensors: Vec<MalEntity>,
    pub studios: Vec<MalEntity>,
    pub genres: Vec<Genre>,
    pub explicit_genres: Vec<MalEntity>,
    pub themes: Vec<MalEntity>,
    pub demographics: Vec<MalEntity>,
    pub relations: Vec<Relation>,
    pub theme: Option<Theme>,
    pub external: Vec<ExternalLink>,
    pub streaming: Vec<ExternalLink>,
}

impl DeepView for Anime {
    type V = AnimeView;

    open spec fn deep_view(&self) -> AnimeView {
        AnimeView {
            id: self.id.deep_view(),
            mal_id: self.mal_id,
            images: self.images.deep_view(),
            trailer: self.trailer.deep_view(),
            approved: self.approved,
            titles: self.titles.deep_view(),
            title: self.title.deep_view(),
            title_english: self.title_english.deep_view(),
            title_japanese: self.title_japanese.deep_view(),
            title_synonyms: self.title_synonyms.deep_view(),
            kind: self.kind.deep_view(),
            source: self.source.deep_view(),
            episodes: self.episodes.deep_view(),
            status: self.status.deep_view(),
            airing: self.airing,
            aired: self.aired.deep_view(),
            duration: self.duration.deep_view(),
            rating: self.rating.deep_view(),
            scored_by: self.scored_by,
            members: self.members,
            favorites: self.favorites,
            synopsis: self.synopsis.deep_view(),
            background: self.background.deep_view(),
            season: self.season.deep_view(),
            year: self.year.deep_view(),
            broadcast: self.broadcast.deep_view(),
            producers: self.producers.deep_view(),
            licensors: self.licensors.deep_view(),
            studios: self.studios.deep_view(),
            genres: self.genres.deep_view(),
            explicit_genres: self.explicit_genres.deep_view(),
            themes: self.themes.deep_view(),
            demographics: self.demographics.deep_view(),
            relations: self.relations.deep_view(),
            theme: self.theme.deep_view(),
            external: self.external.deep_view(),
            streaming: self.streaming.deep_view(),
        }
    }
}

impl DeepClone for Anime {
    fn deep_clone(&self) -> (r: Self)
        ensures
            r.deep_view() == self.deep_view(),
    {
        Anime {
            id: self.id.deep_clone(),
            mal_id: self.mal_id,
            images: self.images.deep_clone(),
            trailer: self.trailer.deep_clone(),
            approved: self.approved,
            titles: self.titles.deep_clone(),
            title: self.title.deep_clone(),
            title_english: self.title_english.deep_clone(),
            title_japanese: self.title_japanese.deep_clone(),
            title_synonyms: self.title_synonyms.deep_clone(),
            kind: self.kind.deep_clone(),
            source: self.source.deep_clone(),
            episodes: self.episodes,
            status: self.status.deep_clone(),
            airing: self.airing,
            aired: self.aired.deep_clone(),
            duration: self.duration.deep_clone(),
            rating: self.rating.deep_clone(),
            scored_by: self.scored_by,
            members: self.members,
            favorites: self.favorites,
            synopsis: self.synopsis.deep_clone(),
            background: self.background.deep_clone(),
            season: self.season.deep_clone(),
            year: self.year,
            broadcast: self.broadcast.deep_clone(),
            producers: self.producers.deep_clone(),
            licensors: self.licensors.deep_clone(),
            studios: self.studios.deep_clone(),
            genres: self.genres.deep_clone(),
            explicit_genres: self.explicit_genres.deep_clone(),
            themes: self.themes.deep_clone(),
            demographics: self.demographics.deep_clone(),
            relations: self.relations.deep_clone(),
            theme: self.theme.deep_clone(),
            external: self.external.deep_clone(),
            streaming: self.streaming.deep_clone(),
        }
    }
}

impl Entity for Anime {
    open spec fn model_id(m: AnimeView) -> Option<Seq<char>> {
        m.id
    }

    open spec fn model_with_id(m: AnimeView, id: Option<Seq<char>>) -> AnimeView {
        AnimeView { id, ..m }
    }

    proof fn lemma_model_with_id(m: AnimeView, id: Option<Seq<char>>) {
    }

    fn id(&self) -> (r: Option<String>) {
        self.id.deep_clone()
    }

    fn with_id(self, id: Option<String>) -> (r: Self) {
        Anime { id, ..self }
    }
}

/// Read DTO of an anime: the record as exposed externally.
#[derive(Debug, Clone, PartialEq, Eq)]
pub struct AnimeDto {
    pub id: Option<String>,
    pub mal_id: u64,
    pub images: Images,
    pub trailer: Trailer,
    pub approved: bool,
    pub titles: Vec<Title>,
    pub title: String,
    pub title_english: String,
    pub title_japanese: String,
    pub title_synonyms: Vec<String>,
    pub kind: String,
    pub source: String,
    pub episodes: Option<u32>,
    pub status: String,
    pub airing: bool,
    pub aired: Option<AiredDto>,
    pub duration: String,
    pub rating: String,
    pub scored_by: u64,
    pub members: u64,
    pub favorites: u64,
    pub synopsis: String,
    pub background: String,
    pub season: String,
    pub year: Option<u32>,
    pub broadcast: Option<BroadcastDto>,
    pub producers: Vec<Producer>,
    pub licensors: Vec<MalEntity>,
    pub studios: Vec<MalEntity>,
    pub genres: Vec<Genre>,
    pub explicit_genres: Vec<MalEntity>,
    pub themes: Vec<MalEntity>,
    pub demographics: Vec<MalEntity>,
    pub relations: Vec<Relation>,
    pub theme: Option<Theme>,
    pub external: Vec<ExternalLink>,
    pub streaming: Vec<ExternalLink>,
}

impl DeepView for AnimeDto {
    type V = AnimeView;

    open spec fn deep_view(&self) -> AnimeView {
        AnimeView {
            id: self.id.deep_view(),
            mal_id: self.mal_id,
            images: self.images.deep_view(),
            trailer: self.trailer.deep_view(),
            approved: self.approved,
            titles: self.titles.deep_view(),
            title: self.title.deep_view(),
            title_english: self.title_english.deep_view(),
            title_japanese: self.title_japanese.deep_view(),
            title_synonyms: self.title_synonyms.deep_view(),
            kind: self.kind.deep_view(),
            source: self.source.deep_view(),
            episodes: self.episodes.deep_view(),
            status: self.status.deep_view(),
            airing: self.airing,
            aired: self.aired.deep_view(),
            duration: self.duration.deep_view(),
            rating: self.rating.deep_view(),
            scored_by: self.scored_by,
            members: self.members,
            favorites: self.favorites,
            synopsis: self.synopsis.deep_view(),
            background: self.background.deep_view(),
            season: self.season.deep_view(),
            year: self.year.deep_view(),
            broadcast: self.broadcast.deep_view(),
            producers: self.producers.deep_view(),
            licensors: self.licensors.deep_view(),
            studios: self.studios.deep_view(),
            genres: self.genres.deep_view(),
            explicit_genres: self.explicit_genres.deep_view(),
            themes: self.themes.deep_view(),
            demographics: self.demographics.deep_view(),
            relations: self.relations.deep_view(),
            theme: self.theme.deep_view(),
            external: self.external.deep_view(),
            streaming: self.streaming.deep_view(),
        }
    }
}

impl ReadDto<Anime> for AnimeDto {
    open spec fn of_model(m: AnimeView) -> AnimeView {
        m
    }

    fn of_entity(e: &Anime) -> (r: Self) {
        AnimeDto {
            id: e.id.deep_clone(),
            mal_id: e.mal_id,
            images: e.images.deep_clone(),
            trailer: e.trailer.deep_clone(),
            approved: e.approved,
            titles: e.titles.deep_clone(),
            title: e.title.deep_clone(),
            title_english: e.title_english.deep_clone(),
            title_japanese: e.title_japanese.deep_clone(),
            title_synonyms: e.title_synonyms.deep_clone(),
            kind: e.kind.deep_clone(),
            source: e.source.deep_clone(),
            episodes: e.episodes,
            status: e.status.deep_clone(),
            airing: e.airing,
            aired: Reshape::reshape(&e.aired),
            duration: e.duration.deep_clone(),
            rating: e.rating.deep_clone(),
            scored_by: e.scored_by,
            members: e.members,
            favorites: e.favorites,
            synopsis: e.synopsis.deep_clone(),
            background: e.background.deep_clone(),
            season: e.season.deep_clone(),
            year: e.year,
            broadcast: Reshape::reshape(&e.broadcast),
            producers: e.producers.deep_clone(),
            licensors: e.licensors.deep_clone(),
            studios: e.studios.deep_clone(),
            genres: e.genres.deep_clone(),
            explicit_genres: e.explicit_genres.deep_clone(),
            themes: e.themes.deep_clone(),
            demographics: e.demographics.deep_clone(),
            relations: e.relations.deep_clone(),
            theme: e.theme.deep_clone(),
            external: e.external.deep_clone(),
            streaming: e.streaming.deep_clone(),
        }
    }
}

/// Create DTO of an anime: external input for a new record; the identifier is left for storage to assign.
#[derive(Debug, Clone, PartialEq, Eq)]
pub struct CreateAnimeDto {
    pub mal_id: u64,
    pub images: Images,
    pub trailer: Trailer,
    pub approved: bool,
    pub titles: Vec<Title>,
    pub title: String,
    pub title_english: String,
    pub title_japanese: String,
    pub title_synonyms: Vec<String>,
    pub kind: String,
    pub source: String,
    pub episodes: Option<u32>,
    pub status: String,
    pub airing: bool,
    pub aired: Option<AiredDto>,
    pub duration: String,
    pub rating: String,
    pub scored_by: u64,
    pub members: u64,
    pub favorites: u64,
    pub synopsis: String,
    pub background: String,
    pub season: String,
    pub year: Option<u32>,
    pub broadcast: Option<BroadcastDto>,
    pub producers: Vec<Producer>,
    pub licensors: Vec<MalEntity>,
    pub studios: Vec<MalEntity>,
    pub genres: Vec<Genre>,
    pub explicit_genres: Vec<MalEntity>,
    pub themes: Vec<MalEntity>,
    pub demographics: Vec<MalEntity>,
    pub relations: Vec<Relation>,
    pub theme: Option<Theme>,
    pub external: Vec<ExternalLink>,
    pub streaming: Vec<ExternalLink>,
}

impl CreateDto<Anime> for CreateAnimeDto {
    open spec fn entity_model(&self) -> AnimeView {
        AnimeView {
            id: None,
            mal_id: self.mal_id,
            images: self.images.deep_view(),
            trailer: self.trailer.deep_view(),
            approved: self.approved,
            titles: self.titles.deep_view(),
            title: self.title.deep_view(),
            title_english: self.title_english.deep_view(),
            title_japanese: self.title_japanese.deep_view(),
            title_synonyms: self.title_synonyms.deep_view(),
            kind: self.kind.deep_view(),
            source: self.source.deep_view(),
            episodes: self.episodes.deep_view(),
            status: self.status.deep_view(),
            airing: self.airing,
            aired: self.aired.deep_view(),
            duration: self.duration.deep_view(),
            rating: self.rating.deep_view(),
            scored_by: self.scored_by,
            members: self.members,
            favorites: self.favorites,
            synopsis: self.synopsis.deep_view(),
            background: self.background.deep_view(),
            season: self.season.deep_view(),
            year: self.year.deep_view(),
            broadcast: self.broadcast.deep_view(),
            producers: self.producers.deep_view(),
            licensors: self.licensors.deep_view(),
            studios: self.studios.deep_view(),
            genres: self.genres.deep_view(),
            explicit_genres: self.explicit_genres.deep_view(),
            themes: self.themes.deep_view(),
            demographics: self.demographics.deep_view(),
            relations: self.relations.deep_view(),
            theme: self.theme.deep_view(),
            external: self.external.deep_view(),
            streaming: self.streaming.deep_view(),
        }
    }

    fn into_entity(self) -> (e: Anime) {
        Anime {
            id: None,
            mal_id: self.mal_id,
            images: self.images,
            trailer: self.trailer,
            approved: self.approved,
            titles: self.titles,
            title: self.title,
            title_english: self.title_english,
            title_japanese: self.title_japanese,
            title_synonyms: self.title_synonyms,
            kind: self.kind,
            source: self.source,
            episodes: self.episodes,
            status: self.status,
            airing: self.airing,
            aired: Reshape::reshape(&self.aired),
            duration: self.duration,
            rating: self.rating,
            scored_by: self.scored_by,
            members: self.members,
            favorites: self.favorites,
            synopsis: self.synopsis,
            background: self.background,
            season: self.season,
            year: self.year,
            broadcast: Reshape::reshape(&self.broadcast),
            producers: self.producers,
            licensors: self.licensors,
            studios: self.studios,
            genres: self.genres,
            explicit_genres: self.explicit_genres,
            themes: self.themes,
            demographics: self.demographics,
            relations: self.relations,
            theme: self.theme,
            external: self.external,
            streaming: self.streaming,
        }
    }
}

/// Update DTO of an anime: every field optional, absence meaning
/// "leave unchanged".
#[derive(Debug, Clone, PartialEq, Eq)]
pub struct UpdateAnimeDto {
    pub mal_id: Option<u64>,
    pub images: Option<Images>,
    pub trailer: Option<Trailer>,
    pub approved: Option<bool>,
    pub titles: Option<Vec<Title>>,
    pub title: Option<String>,
    pub title_english: Option<String>,
    pub title_japanese: Option<String>,
    pub title_synonyms: Option<Vec<String>>,
    pub kind: Option<String>,
    pub source: Option<String>,
    pub episodes: Option<u32>,
    pub status: Option<String>,
    pub airing: Option<bool>,
    pub aired: Option<AiredDto>,
    pub duration: Option<String>,
    pub rating: Option<String>,
    pub scored_by: Option<u64>,
    pub members: Option<u64>,
    pub favorites: Option<u64>,
    pub synopsis: Option<String>,
    pub background: Option<String>,
    pub season: Option<String>,
    pub year: Option<u32>,
    pub broadcast: Option<BroadcastDto>,
    pub producers: Option<Vec<Producer>>,
    pub licensors: Option<Vec<MalEntity>>,
    pub studios: Option<Vec<MalEntity>>,
    pub genres: Option<Vec<Genre>>,
    pub explicit_genres: Option<Vec<MalEntity>>,
    pub themes: Option<Vec<MalEntity>>,
    pub demographics: Option<Vec<MalEntity>>,
    pub relations: Option<Vec<Relation>>,
    pub theme: Option<Theme>,
    pub external: Option<Vec<ExternalLink>>,
    pub streaming: Option<Vec<ExternalLink>>,
}

impl UpdateDto<Anime> for UpdateAnimeDto {
    open spec fn merged(&self, m: AnimeView) -> AnimeView {
        AnimeView {
            id: m.id,
            mal_id: if self.mal_id is Some {
                self.mal_id->0
            } else {
                m.mal_id
            },
            images: if self.images is Some {
                (self.images->0).deep_view()
            } else {
                m.images
            },
            trailer: if self.trailer is Some {
                (self.trailer->0).deep_view()
            } else {
                m.trailer
            },
            approved: if self.approved is Some {
                self.approved->0
            } else {
                m.approved
            },
            titles: if self.titles is Some {
                (self.titles->0).deep_view()
            } else {
                m.titles
            },
            title: if self.title is Some {
                (self.title->0)@
            } else {
                m.title
            },
            title_english: if self.title_english is Some {
                (self.title_english->0)@
            } else {
                m.title_english
            },
            title_japanese: if self.title_japanese is Some {
                (self.title_japanese->0)@
            } else {
                m.title_japanese
            },
            title_synonyms: if self.title_synonyms is Some {
                (self.title_synonyms->0).deep_view()
            } else {
                m.title_synonyms
            },
            kind: if self.kind is Some {
                (self.kind->0)@
            } else {
                m.kind
            },
            source: if self.source is Some {
                (self.source->0)@
            } else {
                m.source
            },
            episodes: if self.episodes is Some {
                Some(self.episodes->0)
            } else {
                m.episodes
            },
            status: if self.status is Some {
                (self.status->0)@
            } else {
                m.status
            },
            airing: if self.airing is Some {
                self.airing->0
            } else {
                m.airing
            },
            aired: if self.aired is Some {
                Some((self.aired->0).deep_view())
            } else {
                m.aired
            },
            duration: if self.duration is Some {
                (self.duration->0)@
            } else {
                m.duration
            },
            rating: if self.rating is Some {
                (self.rating->0)@
            } else {
                m.rating
            },
            scored_by: if self.scored_by is Some {
                self.scored_by->0
            } else {
                m.scored_by
            },
            members: if self.members is Some {
                self.members->0
            } else {
                m.members
            },
            favorites: if self.favorites is Some {
                self.favorites->0
            } else {
                m.favorites
            },
            synopsis: if self.synopsis is Some {
                (self.synopsis->0)@
            } else {
                m.synopsis
            },
            background: if self.background is Some {
                (self.background->0)@
            } else {
                m.background
            },
            season: if self.season is Some {
                (self.season->0)@
            } else {
                m.season
            },
            year: if self.year is Some {
                Some(self.year->0)
            } else {
                m.year
            },
            broadcast: if self.broadcast is Some {
                Some((self.broadcast->0).deep_view())
            } else {
                m.broadcast
            },
            producers: if self.producers is Some {
                (self.producers->0).deep_view()
            } else {
                m.producers
            },
            licensors: if self.licensors is Some {
                (self.licensors->0).deep_view()
            } else {
                m.licensors
            },
            studios: if self.studios is Some {
                (self.studios->0).deep_view()
            } else {
                m.studios
            },
            genres: if self.genres is Some {
                (self.genres->0).deep_view()
            } else {
                m.genres
            },
            explicit_genres: if self.explicit_genres is Some {
                (self.explicit_genres->0).deep_view()
            } else {
                m.explicit_genres
            },
            themes: if self.themes is Some {
                (self.themes->0).deep_view()
            } else {
                m.themes
            },
            demographics: if self.demographics is Some {
                (self.demographics->0).deep_view()
            } else {
                m.demographics
            },
            relations: if self.relations is Some {
                (self.relations->0).deep_view()
            } else {
                m.relations
            },
            theme: if self.theme is Some {
                Some((self.theme->0).deep_view())
            } else {
                m.theme
            },
            external: if self.external is Some {
                (self.external->0).deep_view()
            } else {
                m.external
            },
            streaming: if self.streaming is Some {
                (self.streaming->0).deep_view()
            } else {
                m.streaming
            },
        }
    }

    proof fn lemma_merged_id(&self, m: AnimeView) {
    }

    fn apply(&self, e: &Anime) -> (r: Anime) {
        Anime {
            id: e.id.deep_clone(),
            mal_id: match &self.mal_id {
                Some(v) => *v,
                None => e.mal_id,
            },
            images: match &self.images {
                Some(v) => v.deep_clone(),
                None => e.images.deep_clone(),
            },
            trailer: match &self.trailer {
                Some(v) => v.deep_clone(),
                None => e.trailer.deep_clone(),
            },
            approved: match &self.approved {
                Some(v) => *v,
                None => e.approved,
            },
            titles: match &self.titles {
                Some(v) => v.deep_clone(),
                None => e.titles.deep_clone(),
            },
            title: match &self.title {
                Some(v) => v.deep_clone(),
                None => e.title.deep_clone(),
            },
            title_english: match &self.title_english {
                Some(v) => v.deep_clone(),
                None => e.title_english.deep_clone(),
            },
            title_japanese: match &self.title_japanese {
                Some(v) => v.deep_clone(),
                None => e.title_japanese.deep_clone(),
            },
            title_synonyms: match &self.title_synonyms {
                Some(v) => v.deep_clone(),
                None => e.title_synonyms.deep_clone(),
            },
            kind: match &self.kind {
                Some(v) => v.deep_clone(),
                None => e.kind.deep_clone(),
            },
            source: match &self.source {
                Some(v) => v.deep_clone(),
                None => e.source.deep_clone(),
            },
            episodes: match &self.episodes {
                Some(v) => Some(*v),
                None => e.episodes,
            },
            status: match &self.status {
                Some(v) => v.deep_clone(),
                None => e.status.deep_clone(),
            },
            airing: match &self.airing {
                Some(v) => *v,
                None => e.airing,
            },
            aired: match &self.aired {
                Some(v) => Some(Reshape::reshape(v)),
                None => e.aired.deep_clone(),
            },
            duration: match &self.duration {
                Some(v) => v.deep_clone(),
                None => e.duration.deep_clone(),
            },
            rating: match &self.rating {
                Some(v) => v.deep_clone(),
                None => e.rating.deep_clone(),
            },
            scored_by: match &self.scored_by {
                Some(v) => *v,
                None => e.scored_by,
            },
            members: match &self.members {
                Some(v) => *v,
                None => e.members,
            },
            favorites: match &self.favorites {
                Some(v) => *v,
                None => e.favorites,
            },
            synopsis: match &self.synopsis {
                Some(v) => v.deep_clone(),
                None => e.synopsis.deep_clone(),
            },
            background: match &self.background {
                Some(v) => v.deep_clone(),
                None => e.background.deep_clone(),
            },
            season: match &self.season {
                Some(v) => v.deep_clone(),
                None => e.season.deep_clone(),
            },
            year: match &self.year {
                Some(v) => Some(*v),
                None => e.year,
            },
            broadcast: match &self.broadcast {
                Some(v) => Some(Reshape::reshape(v)),
                None => e.broadcast.deep_clone(),
            },
            producers: match &self.producers {
                Some(v) => v.deep_clone(),
                None => e.producers.deep_clone(),
            },
            licensors: match &self.licensors {
                Some(v) => v.deep_clone(),
                None => e.licensors.deep_clone(),
            },
            studios: match &self.studios {
                Some(v) => v.deep_clone(),
                None => e.studios.deep_clone(),
            },
            genres: match &self.genres {
                Some(v) => v.deep_clone(),
                None => e.genres.deep_clone(),
            },
            explicit_genres: match &self.explicit_genres {
                Some(v) => v.deep_clone(),
                None => e.explicit_genres.deep_clone(),
            },
            themes: match &self.themes {
                Some(v) => v.deep_clone(),
                None => e.themes.deep_clone(),
            },
            demographics: match &self.demographics {
                Some(v) => v.deep_clone(),
                None => e.demographics.deep_clone(),
            },
            relations: match &self.relations {
                Some(v) => v.deep_clone(),
                None => e.relations.deep_clone(),
            },
            theme: match &self.theme {
                Some(v) => Some(v.deep_clone()),
                None => e.theme.deep_clone(),
            },
            external: match &self.external {
                Some(v) => v.deep_clone(),
                None => e.external.deep_clone(),
            },
            streaming: match &self.streaming {
                Some(v) => v.deep_clone(),
                None => e.streaming.deep_clone(),
            },
        }
    }
}

/// Equality conditions on an anime fields; a record matches when
/// every present condition holds, as with the storage engine's
/// field-value filter documents.
#[derive(Debug, Clone, PartialEq, Eq)]
pub struct AnimeFilter {
    pub mal_id: Option<u64>,
    pub title: Option<String>,
    pub kind: Option<String>,
    pub status: Option<String>,
    pub airing: Option<bool>,
    pub season: Option<String>,
    pub year: Option<u32>,
}

impl Selector<Anime> for AnimeFilter {
    open spec fn selects(&self, m: AnimeView) -> bool {
        &&& (self.mal_id is Some ==> m.mal_id == self.mal_id->0)
        &&& (self.title is Some ==> m.title == (self.title->0)@)
        &&& (self.kind is Some ==> m.kind == (self.kind->0)@)
        &&& (self.status is Some ==> m.status == (self.status->0)@)
        &&& (self.airing is Some ==> m.airing == self.airing->0)
        &&& (self.season is Some ==> m.season == (self.season->0)@)
        &&& (self.year is Some ==> m.year == Some(self.year->0))
    }

    fn test(&self, e: &Anime) -> (b: bool) {
        let mal_id_ok = match &self.mal_id {
            Some(v) => e.mal_id == *v,
            None => true,
        };
        let title_ok = match &self.title {
            Some(v) => e.title == *v,
            None => true,
        };
        let kind_ok = match &self.kind {
            Some(v) => e.kind == *v,
            None => true,
        };
        let status_ok = match &self.status {
            Some(v) => e.status == *v,
            None => true,
        };
        let airing_ok = match &self.airing {
            Some(v) => e.airing == *v,
            None => true,
        };
        let season_ok = match &self.season {
            Some(v) => e.season == *v,
            None => true,
        };
        let year_ok = match &self.year {
            Some(v) => match &e.year {
                Some(w) => *w == *v,
                None => false,
            },
            None => true,
        };
        mal_id_ok && title_ok && kind_ok && status_ok && airing_ok && season_ok && year_ok
    }
}

} // verus!
