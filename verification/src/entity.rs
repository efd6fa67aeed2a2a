//! Capabilities an entity kind plugs into the generic repository and
//! CRUD service.
//!
//! Each entity type abstracts to a mathematical model (its `DeepView`),
//! and the four traits here describe, over those models, what the
//! repository and service need of an entity and of its DTO types: an
//! identifier that storage assigns, an infallible conversion from a
//! create DTO, a read-DTO projection, a partial update that replaces
//! exactly the present fields, and query filters.

use vstd::prelude::*;

use crate::deep_clone::DeepClone;

verus! {

/// A record kind that one storage collection holds.
///
/// The identifier is optional: absent before the record is first
/// stored, present (as its canonical hex string) on every stored copy.
pub trait Entity: DeepView + DeepClone + Sized {
    /// Identifier of a model.
    spec fn model_id(m: Self::V) -> Option<Seq<char>>;

    /// The model with its identifier replaced and all else unchanged.
    spec fn model_with_id(m: Self::V, id: Option<Seq<char>>) -> Self::V;

    /// Replacing the identifier yields exactly that identifier.
    proof fn lemma_model_with_id(m: Self::V, id: Option<Seq<char>>)
        ensures
            Self::model_id(Self::model_with_id(m, id)) == id,
    ;

    /// The identifier of this record, as an owned copy.
    fn id(&self) -> (r: Option<String>)
        ensures
            r.deep_view() == Self::model_id(self.deep_view()),
    ;

    /// This record with its identifier replaced.
    fn with_id(self, id: Option<String>) -> (r: Self)
        ensures
            r.deep_view() == Self::model_with_id(self.deep_view(), id.deep_view()),
    ;
}

/// External representation of an entity, built infallibly from it.
pub trait ReadDto<E: Entity>: DeepView + Sized {
    /// The DTO model that a given entity model is exposed as.
    spec fn of_model(m: E::V) -> Self::V;

    /// Project an entity to its read DTO.
    fn of_entity(e: &E) -> (r: Self)
        ensures
            r.deep_view() == Self::of_model(e.deep_view()),
    ;
}

/// External input for building a new entity; the identifier is left
/// unset, to be assigned by storage on insert.
pub trait CreateDto<E: Entity>: Sized {
    /// The entity model this DTO builds.
    spec fn entity_model(&self) -> E::V;

    /// Build the entity.  The identifier of the result is absent.
    fn into_entity(self) -> (e: E)
        ensures
            e.deep_view() == self.entity_model(),
            E::model_id(self.entity_model()) is None,
    ;
}

/// External input for a partial mutation: every field optional,
/// absence meaning "leave unchanged".
pub trait UpdateDto<E: Entity>: Sized {
    /// The model after this update: present fields replaced, absent
    /// fields kept from `m`.
    spec fn merged(&self, m: E::V) -> E::V;

    /// A partial update never touches the identifier.
    proof fn lemma_merged_id(&self, m: E::V)
        ensures
            E::model_id(self.merged(m)) == E::model_id(m),
    ;

    /// Apply the update to a record.
    fn apply(&self, e: &E) -> (r: E)
        ensures
            r.deep_view() == self.merged(e.deep_view()),
    ;
}

/// A structured query predicate over one entity kind, mirroring the
/// storage engine's filter documents.
pub trait Selector<E: Entity> {
    /// Whether a record model satisfies this filter.
    spec fn selects(&self, m: E::V) -> bool;

    /// Decide the filter on a record.
    fn test(&self, e: &E) -> (b: bool)
        ensures
            b == self.selects(e.deep_view()),
    ;
}

/// The filter that matches the record with a given identifier string,
/// as an identifier-keyed lookup does.
pub struct IdSelector {
    pub id: String,
}

impl<E: Entity> Selector<E> for IdSelector {
    open spec fn selects(&self, m: E::V) -> bool {
        E::model_id(m) == Some(self.id@)
    }

    fn test(&self, e: &E) -> (b: bool) {
        match e.id() {
            Some(s) => s == self.id,
            None => false,
        }
    }
}

} // verus!
