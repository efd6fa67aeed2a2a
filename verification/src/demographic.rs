//! Demographic reference data and its collection configuration.

use vstd::prelude::*;

use crate::deep_clone::DeepClone;

verus! {

/// Mathematical model of a demographic.
pub struct DemographicView {
    pub mal_id: i32,
    pub name: Seq<char>,
    pub kind: Seq<char>,
}

/// A reader demographic.
#[derive(Debug, Clone, PartialEq, Eq)]
pub struct Demographic {
    pub mal_id: i32,
    pub name: String,
    pub kind: String,
}

impl DeepView for Demographic {
    type V = DemographicView;

    open spec fn deep_view(&self) -> DemographicView {
        DemographicView { mal_id: self.mal_id, name: self.name@, kind: self.kind@ }
    }
}

impl DeepClone for Demographic {
    fn deep_clone(&self) -> (r: Self)
        ensures
            r.deep_view() == self.deep_view(),
    {
        Demographic {
            mal_id: self.mal_id,
            name: self.name.deep_clone(),
            kind: self.kind.deep_clone(),
        }
    }
}

impl Demographic {
    /// Build a demographic from its parts.
    pub fn new(mal_id: i32, name: String, kind: String) -> (r: Self)
        ensures
            r.mal_id == mal_id,
            r.name == name,
            r.kind == kind,
    {
        Demographic { mal_id, name, kind }
    }
}

/// Configuration of the demographic collection: its name and which
/// fields it is indexed on.
pub struct DemographicCollConf;

impl DemographicCollConf {
    /// Name of the storage collection.
    pub fn collection_name() -> (r: &'static str)
        ensures
            r@ == "demographic"@,
    {
        "demographic"
    }

    /// Names of the indexed fields.
    pub fn indexes() -> (r: Vec<&'static str>)
        ensures
            r@.len() == 2,
            r@[0]@ == "mal_id"@,
            r@[1]@ == "name"@,
    {
        let mut v: Vec<&'static str> = Vec::new();
        v.push("mal_id");
        v.push("name");
        v
    }
}

} // verus!
