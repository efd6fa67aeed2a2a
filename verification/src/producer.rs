//! Producer records and their DTOs.

use vstd::prelude::*;

use crate::deep_clone::{DeepClone, Reshape};
use crate::entity::{CreateDto, Entity, ReadDto, Selector, UpdateDto};
use crate::links::{ExternalLink, ExternalLinkView, Images, ImagesView};
use crate::title_meta::{MalEntity, MalEntityView};

verus! {

/// Mathematical model of a producer record.
pub struct ProducerView {
    pub id: Option<Seq<char>>,
    pub mal_id: u64,
    pub titles: Seq<MalEntityView>,
    pub images: Option<ImagesView>,
    pub favorites: u64,
    pub count: u64,
    pub established: Seq<char>,
    pub about: Seq<char>,
    pub external: Seq<ExternalLinkView>,
}

/// A producer record.
#[derive(Debug, Clone, PartialEq, Eq)]
pub struct Producer {
    pub id: Option<String>,
    pub mal_id: u64,
    pub titles: Vec<MalEntity>,
    pub images: Option<Images>,
    pub favorites: u64,
    pub count: u64,
    pub established: String,
    pub about: String,
    pub external: Vec<ExternalLink>,
}

impl DeepView for Producer {
    type V = ProducerView;

    open spec fn deep_view(&self) -> ProducerView {
        ProducerView {
            id: self.id.deep_view(),
            mal_id: self.mal_id,
            titles: self.titles.deep_view(),
            images: self.images.deep_view(),
            favorites: self.favorites,
            count: self.count,
            established: self.established.deep_view(),
            about: self.about.deep_view(),
            external: self.external.deep_view(),
        }
    }
}

impl DeepClone for Producer {
    fn deep_clone(&self) -> (r: Self)
        ensures
            r.deep_view() == self.deep_view(),
    {
        Producer {
            id: self.id.deep_clone(),
            mal_id: self.mal_id,
            titles: self.titles.deep_clone(),
            images: self.images.deep_clone(),
            favorites: self.favorites,
            count: self.count,
            established: self.established.deep_clone(),
            about: self.about.deep_clone(),
            external: self.external.deep_clone(),
        }
    }
}

impl Entity for Producer {
    open spec fn model_id(m: ProducerView) -> Option<Seq<char>> {
        m.id
    }

    open spec fn model_with_id(m: ProducerView, id: Option<Seq<char>>) -> ProducerView {
        ProducerView { id, ..m }
    }

    proof fn lemma_model_with_id(m: ProducerView, id: Option<Seq<char>>) {
    }

    fn id(&self) -> (r: Option<String>) {
        self.id.deep_clone()
    }

    fn with_id(self, id: Option<String>) -> (r: Self) {
        Producer { id, ..self }
    }
}

/// Read DTO of a producer: the record as exposed externally.
#[derive(Debug, Clone, PartialEq, Eq)]
pub struct ProducerDto {
    pub id: Option<String>,
    pub mal_id: u64,
    pub titles: Vec<MalEntity>,
    pub images: Option<Images>,
    pub favorites: u64,
    pub count: u64,
    pub established: String,
    pub about: String,
    pub external: Vec<ExternalLink>,
}

impl DeepView for ProducerDto {
    type V = ProducerView;

    open spec fn deep_view(&self) -> ProducerView {
        ProducerView {
            id: self.id.deep_view(),
            mal_id: self.mal_id,
            titles: self.titles.deep_view(),
            images: self.images.deep_view(),
            favorites: self.favorites,
            count: self.count,
            established: self.established.deep_view(),
            about: self.about.deep_view(),
            external: self.external.deep_view(),
        }
    }
}

impl ReadDto<Producer> for ProducerDto {
    open spec fn of_model(m: ProducerView) -> ProducerView {
        m
    }

    fn of_entity(e: &Producer) -> (r: Self) {
        ProducerDto {
            id: e.id.deep_clone(),
            mal_id: e.mal_id,
            titles: e.titles.deep_clone(),
            images: e.images.deep_clone(),
            favorites: e.favorites,
            count: e.count,
            established: e.established.deep_clone(),
            about: e.about.deep_clone(),
            external: e.external.deep_clone(),
        }
    }
}

/// Create DTO of a producer: external input for a new record; the identifier is left for storage to assign.
#[derive(Debug, Clone, PartialEq, Eq)]
pub struct CreateProducerDto {
    pub mal_id: u64,
    pub titles: Vec<MalEntity>,
    pub images: Option<Images>,
    pub favorites: u64,
    pub count: u64,
    pub established: String,
    pub about: String,
    pub external: Vec<ExternalLink>,
}

impl CreateDto<Producer> for CreateProducerDto {
    open spec fn entity_model(&self) -> ProducerView {
        ProducerView {
            id: None,
            mal_id: self.mal_id,
            titles: self.titles.deep_view(),
            images: self.images.deep_view(),
            favorites: self.favorites,
            count: self.count,
            established: self.established.deep_view(),
            about: self.about.deep_view(),
            external: self.external.deep_view(),
        }
    }

    fn into_entity(self) -> (e: Producer) {
        Producer {
            id: None,
            mal_id: self.mal_id,
            titles: self.titles,
            images: self.images,
            favorites: self.favorites,
            count: self.count,
            established: self.established,
            about: self.about,
            external: self.external,
        }
    }
}

/// Update DTO of a producer: every field optional, absence meaning
/// "leave unchanged".
#[derive(Debug, Clone, PartialEq, Eq)]
pub struct UpdateProducerDto {
    pub mal_id: Option<u64>,
    pub titles: Option<Vec<MalEntity>>,
    pub images: Option<Images>,
    pub favorites: Option<u64>,
    pub count: Option<u64>,
    pub established: Option<String>,
    pub about: Option<String>,
    pub external: Option<Vec<ExternalLink>>,
}

impl UpdateDto<Producer> for UpdateProducerDto {
    open spec fn merged(&self, m: ProducerView) -> ProducerView {
        ProducerView {
            id: m.id,
            mal_id: if self.mal_id is Some {
                self.mal_id->0
            } else {
                m.mal_id
            },
            titles: if self.titles is Some {
                (self.titles->0).deep_view()
            } else {
                m.titles
            },
            images: if self.images is Some {
                Some((self.images->0).deep_view())
            } else {
                m.images
            },
            favorites: if self.favorites is Some {
                self.favorites->0
            } else {
                m.favorites
            },
            count: if self.count is Some {
                self.count->0
            } else {
                m.count
            },
            established: if self.established is Some {
                (self.established->0)@
            } else {
                m.established
            },
            about: if self.about is Some {
                (self.about->0)@
            } else {
                m.about
            },
            external: if self.external is Some {
                (self.external->0).deep_view()
            } else {
                m.external
            },
        }
    }

    proof fn lemma_merged_id(&self, m: ProducerView) {
    }

    fn apply(&self, e: &Producer) -> (r: Producer) {
        Producer {
            id: e.id.deep_clone(),
            mal_id: match &self.mal_id {
                Some(v) => *v,
                None => e.mal_id,
            },
            titles: match &self.titles {
                Some(v) => v.deep_clone(),
                None => e.titles.deep_clone(),
            },
            images: match &self.images {
                Some(v) => Some(v.deep_clone()),
                None => e.images.deep_clone(),
            },
            favorites: match &self.favorites {
                Some(v) => *v,
                None => e.favorites,
            },
            count: match &self.count {
                Some(v) => *v,
                None => e.count,
            },
            established: match &self.established {
                Some(v) => v.deep_clone(),
                None => e.established.deep_clone(),
            },
            about: match &self.about {
                Some(v) => v.deep_clone(),
                None => e.about.deep_clone(),
            },
            external: match &self.external {
                Some(v) => v.deep_clone(),
                None => e.external.deep_clone(),
            },
        }
    }
}

/// Equality conditions on a producer fields; a record matches when
/// every present condition holds, as with the storage engine's
/// field-value filter documents.
#[derive(Debug, Clone, PartialEq, Eq)]
pub struct ProducerFilter {
    pub mal_id: Option<u64>,
    pub established: Option<String>,
}

impl Selector<Producer> for ProducerFilter {
    open spec fn selects(&self, m: ProducerView) -> bool {
        &&& (self.mal_id is Some ==> m.mal_id == self.mal_id->0)
        &&& (self.established is Some ==> m.established == (self.established->0)@)
    }

    fn test(&self, e: &Producer) -> (b: bool) {
        let mal_id_ok = match &self.mal_id {
            Some(v) => e.mal_id == *v,
            None => true,
        };
        let established_ok = match &self.established {
            Some(v) => e.established == *v,
            None => true,
        };
        mal_id_ok && established_ok
    }
}

} // verus!
