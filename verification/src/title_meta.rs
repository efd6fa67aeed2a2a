//! Title metadata components shared by several entities.

use vstd::prelude::*;

use crate::deep_clone::DeepClone;

verus! {

/// Mathematical model of a catalogue reference with kind and name.
pub struct MalEntityView {
    pub mal_id: u64,
    pub kind: Seq<char>,
    pub name: Seq<char>,
}

/// A catalogue reference with kind and name.
#[derive(Debug, Clone, PartialEq, Eq)]
pub struct MalEntity {
    pub mal_id: u64,
    pub kind: String,
    pub name: String,
}

impl DeepView for MalEntity {
    type V = MalEntityView;

    open spec fn deep_view(&self) -> MalEntityView {
        MalEntityView {
            mal_id: self.mal_id,
            kind: self.kind.deep_view(),
            name: self.name.deep_view(),
        }
    }
}

impl DeepClone for MalEntity {
    fn deep_clone(&self) -> (r: Self)
        ensures
            r.deep_view() == self.deep_view(),
    {
        MalEntity {
            mal_id: self.mal_id,
            kind: self.kind.deep_clone(),
            name: self.name.deep_clone(),
        }
    }
}

/// Mathematical model of one title of a work, with its kind.
pub struct TitleView {
    pub kind: Seq<char>,
    pub title: Seq<char>,
}

/// One title of a work, with its kind.
#[derive(Debug, Clone, PartialEq, Eq)]
pub struct Title {
    pub kind: String,
    pub title: String,
}

impl DeepView for Title {
    type V = TitleView;

    open spec fn deep_view(&self) -> TitleView {
        TitleView {
            kind: self.kind.deep_view(),
            title: self.title.deep_view(),
        }
    }
}

impl DeepClone for Title {
    fn deep_clone(&self) -> (r: Self)
        ensures
            r.deep_view() == self.deep_view(),
    {
        Title {
            kind: self.kind.deep_clone(),
            title: self.title.deep_clone(),
        }
    }
}

/// Mathematical model of opening and ending themes.
pub struct ThemeView {
    pub openings: Seq<Seq<char>>,
    pub endings: Seq<Seq<char>>,
}

/// Opening and ending themes.
#[derive(Debug, Clone, PartialEq, Eq)]
pub struct Theme {
    pub openings: Vec<String>,
    pub endings: Vec<String>,
}

impl DeepView for Theme {
    type V = ThemeView;

    open spec fn deep_view(&self) -> ThemeView {
        ThemeView {
            openings: self.openings.deep_view(),
            endings: self.endings.deep_view(),
        }
    }
}

impl DeepClone for Theme {
    fn deep_clone(&self) -> (r: Self)
        ensures
            r.deep_view() == self.deep_view(),
    {
        Theme {
            openings: self.openings.deep_clone(),
            endings: self.endings.deep_clone(),
        }
    }
}

/// Mathematical model of a relation to other catalogue entries.
pub struct RelationView {
    pub relation: Seq<char>,
    pub entry: Seq<MalEntityView>,
}

/// A relation to other catalogue entries.
#[derive(Debug, Clone, PartialEq, Eq)]
pub struct Relation {
    pub relation: String,
    pub entry: Vec<MalEntity>,
}

impl DeepView for Relation {
    type V = RelationView;

    open spec fn deep_view(&self) -> RelationView {
        RelationView {
            relation: self.relation.deep_view(),
            entry: self.entry.deep_view(),
        }
    }
}

impl DeepClone for Relation {
    fn deep_clone(&self) -> (r: Self)
        ensures
            r.deep_view() == self.deep_view(),
    {
        Relation {
            relation: self.relation.deep_clone(),
            entry: self.entry.deep_clone(),
        }
    }
}

} // verus!
