//! Club records and their DTOs.
//!
//! Creation and update timestamps are carried as milliseconds since
//! the epoch; the caller supplies the creation instant, and both
//! timestamps start out equal to it.

use vstd::prelude::*;

use crate::deep_clone::{DeepClone, Reshape};
use crate::entity::{CreateDto, Entity, ReadDto, Selector, UpdateDto};

verus! {

/// Mathematical model of a club record.
pub struct ClubView {
    pub id: Option<Seq<char>>,
    pub name: Seq<char>,
    pub description: Option<Seq<char>>,
    pub members: Seq<Seq<char>>,
    pub access: Seq<char>,
    pub category: Seq<char>,
    pub created_at: i64,
    pub updated_at: i64,
}

/// A club record.
#[derive(Debug, Clone, PartialEq, Eq)]
pub struct Club {
    pub id: Option<String>,
    pub name: String,
    pub description: Option<String>,
    pub members: Vec<String>,
    pub access: String,
    pub category: String,
    pub created_at: i64,
    pub updated_at: i64,
}

impl DeepView for Club {
    type V = ClubView;

    open spec fn deep_view(&self) -> ClubView {
        ClubView {
            id: self.id.deep_view(),
            name: self.name.deep_view(),
            description: self.description.deep_view(),
            members: self.members.deep_view(),
            access: self.access.deep_view(),
            category: self.category.deep_view(),
            created_at: self.created_at,
            updated_at: self.updated_at,
        }
    }
}

impl DeepClone for Club {
    fn deep_clone(&self) -> (r: Self)
        ensures
            r.deep_view() == self.deep_view(),
    {
        Club {
            id: self.id.deep_clone(),
            name: self.name.deep_clone(),
            description: self.description.deep_clone(),
            members: self.members.deep_clone(),
            access: self.access.deep_clone(),
            category: self.category.deep_clone(),
            created_at: self.created_at,
            updated_at: self.updated_at,
        }
    }
}

impl Entity for Club {
    open spec fn model_id(m: ClubView) -> Option<Seq<char>> {
        m.id
    }

    open spec fn model_with_id(m: ClubView, id: Option<Seq<char>>) -> ClubView {
        ClubView { id, ..m }
    }

    proof fn lemma_model_with_id(m: ClubView, id: Option<Seq<char>>) {
    }

    fn id(&self) -> (r: Option<String>) {
        self.id.deep_clone()
    }

    fn with_id(self, id: Option<String>) -> (r: Self) {
        Club { id, ..self }
    }
}

/// Read DTO of a club: the record as exposed externally.
#[derive(Debug, Clone, PartialEq, Eq)]
pub struct ClubDto {
    pub id: Option<String>,
    pub name: String,
    pub description: Option<String>,
    pub members: Vec<String>,
    pub access: String,
    pub category: String,
    pub created_at: i64,
    pub updated_at: i64,
}

impl DeepView for ClubDto {
    type V = ClubView;

    open spec fn deep_view(&self) -> ClubView {
        ClubView {
            id: self.id.deep_view(),
            name: self.name.deep_view(),
            description: self.description.deep_view(),
            members: self.members.deep_view(),
            access: self.access.deep_view(),
            category: self.category.deep_view(),
            created_at: self.created_at,
            updated_at: self.updated_at,
        }
    }
}

impl ReadDto<Club> for ClubDto {
    open spec fn of_model(m: ClubView) -> ClubView {
        m
    }

    fn of_entity(e: &Club) -> (r: Self) {
        ClubDto {
            id: e.id.deep_clone(),
            name: e.name.deep_clone(),
            description: e.description.deep_clone(),
            members: e.members.deep_clone(),
            access: e.access.deep_clone(),
            category: e.category.deep_clone(),
            created_at: e.created_at,
            updated_at: e.updated_at,
        }
    }
}

/// Create DTO of a club: external input for a new record; the identifier is left for storage to assign.
#[derive(Debug, Clone, PartialEq, Eq)]
pub struct CreateClubDto {
    pub name: String,
    pub description: Option<String>,
    pub members: Vec<String>,
    pub access: String,
    pub category: String,
    pub created_at: i64,
}

impl CreateDto<Club> for CreateClubDto {
    open spec fn entity_model(&self) -> ClubView {
        ClubView {
            id: None,
            name: self.name.deep_view(),
            description: self.description.deep_view(),
            members: self.members.deep_view(),
            access: self.access.deep_view(),
            category: self.category.deep_view(),
            created_at: self.created_at,
            updated_at: self.created_at,
        }
    }

    fn into_entity(self) -> (e: Club) {
        Club {
            id: None,
            name: self.name,
            description: self.description,
            members: self.members,
            access: self.access,
            category: self.category,
            created_at: self.created_at,
            updated_at: self.created_at,
        }
    }
}

/// Update DTO of a club: every field optional, absence meaning
/// "leave unchanged".
#[derive(Debug, Clone, PartialEq, Eq)]
pub struct UpdateClubDto {
    pub name: Option<String>,
    pub description: Option<String>,
    pub members: Option<Vec<String>>,
    pub access: Option<String>,
    pub category: Option<String>,
}

impl UpdateDto<Club> for UpdateClubDto {
    open spec fn merged(&self, m: ClubView) -> ClubView {
        ClubView {
            id: m.id,
            name: if self.name is Some {
                (self.name->0)@
            } else {
                m.name
            },
            description: if self.description is Some {
                Some((self.description->0)@)
            } else {
                m.description
            },
            members: if self.members is Some {
                (self.members->0).deep_view()
            } else {
                m.members
            },
            access: if self.access is Some {
                (self.access->0)@
            } else {
                m.access
            },
            category: if self.category is Some {
                (self.category->0)@
            } else {
                m.category
            },
            created_at: m.created_at,
            updated_at: m.updated_at,
        }
    }

    proof fn lemma_merged_id(&self, m: ClubView) {
    }

    fn apply(&self, e: &Club) -> (r: Club) {
        Club {
            id: e.id.deep_clone(),
            name: match &self.name {
                Some(v) => v.deep_clone(),
                None => e.name.deep_clone(),
            },
            description: match &self.description {
                Some(v) => Some(v.deep_clone()),
                None => e.description.deep_clone(),
            },
            members: match &self.members {
                Some(v) => v.deep_clone(),
                None => e.members.deep_clone(),
            },
            access: match &self.access {
                Some(v) => v.deep_clone(),
                None => e.access.deep_clone(),
            },
            category: match &self.category {
                Some(v) => v.deep_clone(),
                None => e.category.deep_clone(),
            },
            created_at: e.created_at,
            updated_at: e.updated_at,
        }
    }
}

/// Equality conditions on a club fields; a record matches when
/// every present condition holds, as with the storage engine's
/// field-value filter documents.
#[derive(Debug, Clone, PartialEq, Eq)]
pub struct ClubFilter {
    pub name: Option<String>,
    pub category: Option<String>,
}

impl Selector<Club> for ClubFilter {
    open spec fn selects(&self, m: ClubView) -> bool {
        &&& (self.name is Some ==> m.name == (self.name->0)@)
        &&& (self.category is Some ==> m.category == (self.category->0)@)
    }

    fn test(&self, e: &Club) -> (b: bool) {
        let name_ok = match &self.name {
            Some(v) => e.name == *v,
            None => true,
        };
        let category_ok = match &self.category {
            Some(v) => e.category == *v,
            None => true,
        };
        name_ok && category_ok
    }
}

} // verus!
