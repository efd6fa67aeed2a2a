//! Magazine records and their DTOs.

use vstd::prelude::*;

use crate::deep_clone::DeepClone;
use crate::entity::{CreateDto, Entity, ReadDto, Selector, UpdateDto};

verus! {

/// Mathematical model of a magazine record.
pub struct MagazineView {
    pub id: Option<Seq<char>>,
    pub mal_id: u64,
    pub name: Seq<char>,
    pub count: u64,
}

/// Magazine record.
#[derive(Debug, Clone, PartialEq, Eq)]
pub struct Magazine {
    pub id: Option<String>,
    pub mal_id: u64,
    pub name: String,
    pub count: u64,
}

impl DeepView for Magazine {
    type V = MagazineView;

    open spec fn deep_view(&self) -> MagazineView {
        MagazineView {
            id: self.id.deep_view(),
            mal_id: self.mal_id,
            name: self.name@,
            count: self.count,
        }
    }
}

impl DeepClone for Magazine {
    fn deep_clone(&self) -> (r: Self)
        ensures
            r.deep_view() == self.deep_view(),
    {
        Magazine {
            id: self.id.deep_clone(),
            mal_id: self.mal_id,
            name: self.name.deep_clone(),
            count: self.count,
        }
    }
}

impl Entity for Magazine {
    open spec fn model_id(m: MagazineView) -> Option<Seq<char>> {
        m.id
    }

    open spec fn model_with_id(m: MagazineView, id: Option<Seq<char>>) -> MagazineView {
        MagazineView { id, ..m }
    }

    proof fn lemma_model_with_id(m: MagazineView, id: Option<Seq<char>>) {
    }

    fn id(&self) -> (r: Option<String>) {
        self.id.deep_clone()
    }

    fn with_id(self, id: Option<String>) -> (r: Self) {
        Magazine { id, ..self }
    }
}

/// Read DTO of a magazine: the record as exposed externally.
#[derive(Debug, Clone, PartialEq, Eq)]
pub struct MagazineDto {
    pub id: Option<String>,
    pub mal_id: u64,
    pub name: String,
    pub count: u64,
}

impl DeepView for MagazineDto {
    type V = MagazineView;

    open spec fn deep_view(&self) -> MagazineView {
        MagazineView {
            id: self.id.deep_view(),
            mal_id: self.mal_id,
            name: self.name@,
            count: self.count,
        }
    }
}

impl ReadDto<Magazine> for MagazineDto {
    open spec fn of_model(m: MagazineView) -> MagazineView {
        m
    }

    fn of_entity(e: &Magazine) -> (r: Self) {
        MagazineDto {
            id: e.id.deep_clone(),
            mal_id: e.mal_id,
            name: e.name.deep_clone(),
            count: e.count,
        }
    }
}

/// Create DTO of a magazine: every stored field except the
/// storage-assigned identifier.
#[derive(Debug, Clone, PartialEq, Eq)]
pub struct CreateMagazineDto {
    pub mal_id: u64,
    pub name: String,
    pub count: u64,
}

impl CreateDto<Magazine> for CreateMagazineDto {
    open spec fn entity_model(&self) -> MagazineView {
        MagazineView { id: None, mal_id: self.mal_id, name: self.name@, count: self.count }
    }

    fn into_entity(self) -> (e: Magazine) {
        Magazine { id: None, mal_id: self.mal_id, name: self.name, count: self.count }
    }
}

/// Update DTO of a magazine: every field optional, absence meaning
/// "leave unchanged".
#[derive(Debug, Clone, PartialEq, Eq)]
pub struct UpdateMagazineDto {
    pub mal_id: Option<u64>,
    pub name: Option<String>,
    pub count: Option<u64>,
}

impl UpdateDto<Magazine> for UpdateMagazineDto {
    open spec fn merged(&self, m: MagazineView) -> MagazineView {
        MagazineView {
            id: m.id,
            mal_id: if self.mal_id is Some {
                self.mal_id->0
            } else {
                m.mal_id
            },
            name: if self.name is Some {
                self.name->0@
            } else {
                m.name
            },
            count: if self.count is Some {
                self.count->0
            } else {
                m.count
            },
        }
    }

    proof fn lemma_merged_id(&self, m: MagazineView) {
    }

    fn apply(&self, e: &Magazine) -> (r: Magazine) {
        Magazine {
            id: e.id.deep_clone(),
            mal_id: match &self.mal_id {
                Some(v) => *v,
                None => e.mal_id,
            },
            name: match &self.name {
                Some(v) => v.deep_clone(),
                None => e.name.deep_clone(),
            },
            count: match &self.count {
                Some(v) => *v,
                None => e.count,
            },
        }
    }
}

/// Equality conditions on magazine fields; a record matches when
/// every present condition holds, as with the storage engine's
/// field-value filter documents.
#[derive(Debug, Clone, PartialEq, Eq)]
pub struct MagazineFilter {
    pub mal_id: Option<u64>,
    pub name: Option<String>,
}

impl Selector<Magazine> for MagazineFilter {
    open spec fn selects(&self, m: MagazineView) -> bool {
        &&& (self.mal_id is Some ==> m.mal_id == self.mal_id->0)
        &&& (self.name is Some ==> m.name == self.name->0@)
    }

    fn test(&self, e: &Magazine) -> (b: bool) {
        let mal_ok = match &self.mal_id {
            Some(v) => e.mal_id == *v,
            None => true,
        };
        let name_ok = match &self.name {
            Some(v) => e.name == *v,
            None => true,
        };
        mal_ok && name_ok
    }
}

} // verus!
