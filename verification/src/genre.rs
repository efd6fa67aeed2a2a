//! Genre records and their DTOs.

use vstd::prelude::*;

use crate::deep_clone::{DeepClone, Reshape};
use crate::entity::{CreateDto, Entity, ReadDto, Selector, UpdateDto};

verus! {

/// Mathematical model of a genre record.
pub struct GenreView {
    pub id: Option<Seq<char>>,
    pub mal_id: u64,
    pub kind: Seq<char>,
    pub name: Seq<char>,
    pub count: u64,
}

/// A genre record.
#[derive(Debug, Clone, PartialEq, Eq)]
pub struct Genre {
    pub id: Option<String>,
    pub mal_id: u64,
    pub kind: String,
    pub name: String,
    pub count: u64,
}

impl DeepView for Genre {
    type V = GenreView;

    open spec fn deep_view(&self) -> GenreView {
        GenreView {
            id: self.id.deep_view(),
            mal_id: self.mal_id,
            kind: self.kind.deep_view(),
            name: self.name.deep_view(),
            count: self.count,
        }
    }
}

impl DeepClone for Genre {
    fn deep_clone(&self) -> (r: Self)
        ensures
            r.deep_view() == self.deep_view(),
    {
        Genre {
            id: self.id.deep_clone(),
            mal_id: self.mal_id,
            kind: self.kind.deep_clone(),
            name: self.name.deep_clone(),
            count: self.count,
        }
    }
}

impl Entity for Genre {
    open spec fn model_id(m: GenreView) -> Option<Seq<char>> {
        m.id
    }

    open spec fn model_with_id(m: GenreView, id: Option<Seq<char>>) -> GenreView {
        GenreView { id, ..m }
    }

    proof fn lemma_model_with_id(m: GenreView, id: Option<Seq<char>>) {
    }

    fn id(&self) -> (r: Option<String>) {
        self.id.deep_clone()
    }

    fn with_id(self, id: Option<String>) -> (r: Self) {
        Genre { id, ..self }
    }
}

/// Read DTO of a genre: the record as exposed externally.
#[derive(Debug, Clone, PartialEq, Eq)]
pub struct GenreDto {
    pub id: Option<String>,
    pub mal_id: u64,
    pub kind: String,
    pub name: String,
    pub count: u64,
}

impl DeepView for GenreDto {
    type V = GenreView;

    open spec fn deep_view(&self) -> GenreView {
        GenreView {
            id: self.id.deep_view(),
            mal_id: self.mal_id,
            kind: self.kind.deep_view(),
            name: self.name.deep_view(),
            count: self.count,
        }
    }
}

impl ReadDto<Genre> for GenreDto {
    open spec fn of_model(m: GenreView) -> GenreView {
        m
    }

    fn of_entity(e: &Genre) -> (r: Self) {
        GenreDto {
            id: e.id.deep_clone(),
            mal_id: e.mal_id,
            kind: e.kind.deep_clone(),
            name: e.name.deep_clone(),
            count: e.count,
        }
    }
}

/// Create DTO of a genre: external input for a new record; the identifier is left for storage to assign.
#[derive(Debug, Clone, PartialEq, Eq)]
pub struct CreateGenreDto {
    pub mal_id: u64,
    pub kind: String,
    pub name: String,
    pub count: u64,
}

impl CreateDto<Genre> for CreateGenreDto {
    open spec fn entity_model(&self) -> GenreView {
        GenreView {
            id: None,
            mal_id: self.mal_id,
            kind: self.kind.deep_view(),
            name: self.name.deep_view(),
            count: self.count,
        }
    }

    fn into_entity(self) -> (e: Genre) {
        Genre {
            id: None,
            mal_id: self.mal_id,
            kind: self.kind,
            name: self.name,
            count: self.count,
        }
    }
}

/// Update DTO of a genre: every field optional, absence meaning
/// "leave unchanged".
#[derive(Debug, Clone, PartialEq, Eq)]
pub struct UpdateGenreDto {
    pub mal_id: Option<u64>,
    pub kind: Option<String>,
    pub name: Option<String>,
    pub count: Option<u64>,
}

impl UpdateDto<Genre> for UpdateGenreDto {
    open spec fn merged(&self, m: GenreView) -> GenreView {
        GenreView {
            id: m.id,
            mal_id: if self.mal_id is Some {
                self.mal_id->0
            } else {
                m.mal_id
            },
            kind: if self.kind is Some {
                (self.kind->0)@
            } else {
                m.kind
            },
            name: if self.name is Some {
                (self.name->0)@
            } else {
                m.name
            },
            count: if self.count is Some {
                self.count->0
            } else {
                m.count
            },
        }
    }

    proof fn lemma_merged_id(&self, m: GenreView) {
    }

    fn apply(&self, e: &Genre) -> (r: Genre) {
        Genre {
            id: e.id.deep_clone(),
            mal_id: match &self.mal_id {
                Some(v) => *v,
                None => e.mal_id,
            },
            kind: match &self.kind {
                Some(v) => v.deep_clone(),
                None => e.kind.deep_clone(),
            },
            name: match &self.name {
                Some(v) => v.deep_clone(),
                None => e.name.deep_clone(),
            },
            count: match &self.count {
                Some(v) => *v,
                None => e.count,
            },
        }
    }
}

/// Equality conditions on a genre fields; a record matches when
/// every present condition holds, as with the storage engine's
/// field-value filter documents.
#[derive(Debug, Clone, PartialEq, Eq)]
pub struct GenreFilter {
    pub mal_id: Option<u64>,
    pub kind: Option<String>,
    pub name: Option<String>,
}

impl Selector<Genre> for GenreFilter {
    open spec fn selects(&self, m: GenreView) -> bool {
        &&& (self.mal_id is Some ==> m.mal_id == self.mal_id->0)
        &&& (self.kind is Some ==> m.kind == (self.kind->0)@)
        &&& (self.name is Some ==> m.name == (self.name->0)@)
    }

    fn test(&self, e: &Genre) -> (b: bool) {
        let mal_id_ok = match &self.mal_id {
            Some(v) => e.mal_id == *v,
            None => true,
        };
        let kind_ok = match &self.kind {
            Some(v) => e.kind == *v,
            None => true,
        };
        let name_ok = match &self.name {
            Some(v) => e.name == *v,
            None => true,
        };
        mal_id_ok && kind_ok && name_ok
    }
}


/// A partial update merges exactly the present fields: each present
/// field of the update DTO takes its new value, each absent field
/// keeps the record's old value, and the identifier is never touched.
pub proof fn lemma_update_merges_exactly_present_fields(u: UpdateGenreDto, m: GenreView)
    ensures
        u.merged(m).id == m.id,
        u.merged(m).mal_id == if u.mal_id is Some {
            u.mal_id->0
        } else {
            m.mal_id
        },
        u.merged(m).kind == if u.kind is Some {
            (u.kind->0)@
        } else {
            m.kind
        },
        u.merged(m).name == if u.name is Some {
            (u.name->0)@
        } else {
            m.name
        },
        u.merged(m).count == if u.count is Some {
            u.count->0
        } else {
            m.count
        },
{
}

} // verus!
