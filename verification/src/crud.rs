//! The generic CRUD service: DTO-boundary translation and derived
//! read patterns layered on one repository.
//!
//! `CrudService` is generic over an entity type `E`, a read DTO `R`,
//! a create DTO `C` and an update DTO `U`, and carries the contracts;
//! `CrudServiceImpl` implements it over one repository.  The service
//! translates DTOs to and from the entity type at the boundary, adds
//! pagination, and keeps the error taxonomy's distinctions: a
//! malformed identifier is reported as `InvalidIdentifier`, a missing
//! record as `NotFound`, and the two are never conflated.

use core::marker::PhantomData;
use vstd::prelude::*;

use crate::app_error::AppError;
use crate::db_repo::{
    lemma_matching_empty, lemma_matching_head, matching, models_ok, not_sel_of, sel_of, window,
    DatabaseRepository, FindOptions,
};
use crate::entity::{CreateDto, Entity, IdSelector, ReadDto, Selector, UpdateDto};
use crate::object_id::{lemma_parse_in_range, oid_hex, oid_to_hex, parse_oid, parse_oid_spec};
use crate::pagination::{last_page_for, pages_for, Pagination};

verus! {

/// The projection a read DTO type makes from entity models.
pub open spec fn read_of<E: Entity, R: ReadDto<E>>() -> spec_fn(E::V) -> R::V {
    |m: E::V| R::of_model(m)
}

/// A sequence of entity models, each projected to its read DTO model.
pub open spec fn read_models<E: Entity, R: ReadDto<E>>(s: Seq<E::V>) -> Seq<R::V> {
    s.map_values(read_of::<E, R>())
}

/// A service that provides CRUD operations for one entity kind,
/// generic over the entity type and its read, create and update DTOs.
pub trait CrudService<E: Entity, R: ReadDto<E>, C: CreateDto<E>, U: UpdateDto<E>>: Sized {
    /// The stored record models, in insertion order.
    spec fn models(&self) -> Seq<E::V>;

    /// Well-formedness of the underlying store: every stored record
    /// carries a distinct, canonical, in-bound identifier.
    spec fn wf(&self) -> bool;

    /// The bound below which all assigned identifier values lie.
    spec fn id_bound(&self) -> u64;

    /// Wrap a repository.
    fn new(repository: DatabaseRepository<E>) -> (r: Self)
        ensures
            r.models() == repository.models(),
            r.wf() <==> repository.wf(),
            r.id_bound() == repository.id_bound(),
    ;

    /// Every record, projected to its read DTO.
    fn get_all(&self) -> (r: Result<Vec<R>, AppError>)
        ensures
            r is Ok,
            r->Ok_0.deep_view() == read_models::<E, R>(self.models()),
    ;

    /// The matching records in their skip/limit window, projected to
    /// read DTOs.  An empty result is valid; a find never fails.
    fn find<S: Selector<E>>(&self, filter: Option<&S>, options: Option<FindOptions>) -> (r: Result<
        Vec<R>,
        AppError,
    >)
        ensures
            r is Ok,
            r->Ok_0.deep_view() == read_models::<E, R>(
                window(
                    match filter {
                        Some(f) => matching(self.models(), sel_of(f)),
                        None => self.models(),
                    },
                    match options {
                        Some(o) => o.skip,
                        None => None,
                    },
                    match options {
                        Some(o) => o.limit,
                        None => None,
                    },
                ),
            ),
    ;

    /// One page of matching records with its pagination metadata.
    /// `page` is 1-based; the page's records are read and the total is
    /// counted independently against the same filter.
    fn get_paginated<S: Selector<E>>(&self, filter: Option<&S>, page: u64, limit: u64) -> (r:
        Result<Pagination<R>, AppError>)
        requires
            page >= 1,
            limit >= 1,
            (page - 1) * limit <= u64::MAX,
        ensures
            r is Ok,
            ({
                let base = match filter {
                    Some(f) => matching(self.models(), sel_of(f)),
                    None => self.models(),
                };
                let pg = r->Ok_0;
                &&& pg.current_page == page
                &&& pg.per_page == limit
                &&& pg.total == base.len()
                &&& pg.last_page == pages_for(base.len() as int, limit as int)
                &&& pg.payload.deep_view() == read_models::<E, R>(
                    window(base, Some(((page - 1) * limit) as u64), Some(limit)),
                )
            }),
    ;

    /// The record with the given external identifier, if any.  A
    /// malformed identifier fails as a client error
    /// (`InvalidIdentifier`), distinct from an absent record, which is
    /// simply none.
    fn get_by_id(&self, id: &str) -> (r: Result<Option<R>, AppError>)
        ensures
            ({
                let os = parse_oid_spec(id@);
                let s = self.models();
                match os {
                    None => r is Err && r->Err_0 is InvalidIdentifier,
                    Some(v) => {
                        let canon = oid_hex(v);
                        &&& r is Ok
                        &&& match r->Ok_0 {
                            None => forall|i: int|
                                0 <= i < s.len() ==> E::model_id(#[trigger] s[i]) != Some(canon),
                            Some(d) => exists|i: int|
                                {
                                    &&& 0 <= i < s.len()
                                    &&& E::model_id(#[trigger] s[i]) == Some(canon)
                                    &&& forall|j: int|
                                        0 <= j < i ==> E::model_id(#[trigger] s[j]) != Some(canon)
                                    &&& d.deep_view() == R::of_model(s[i])
                                },
                        }
                    },
                }
            }),
    ;

    /// Count of the matching records; with no filter, of the whole
    /// collection.  By policy a count never fails the caller: a
    /// storage error would be reported as zero.
    fn count<S: Selector<E>>(&self, filter: Option<&S>) -> (r: u64)
        ensures
            r == match filter {
                Some(f) => matching(self.models(), sel_of(f)).len(),
                None => self.models().len(),
            },
    ;

    /// Create a record from its create DTO: the entity is built with
    /// its identifier unset, stored with a storage-assigned
    /// identifier, and the hydrated stored record is returned as a
    /// read DTO.
    fn create(&mut self, dto: C) -> (r: Result<R, AppError>)
        requires
            old(self).wf(),
            old(self).id_bound() < u64::MAX,
        ensures
            final(self).wf(),
            final(self).id_bound() == old(self).id_bound() + 1,
            r is Ok,
            ({
                let id = oid_hex(old(self).id_bound() as u128);
                let m = E::model_with_id(dto.entity_model(), Some(id));
                &&& E::model_id(m) == Some(id)
                &&& final(self).models() == old(self).models().push(m)
                &&& r->Ok_0.deep_view() == R::of_model(m)
                &&& forall|i: int|
                    0 <= i < old(self).models().len() ==> E::model_id(
                        #[trigger] old(self).models()[i],
                    ) != Some(id)
            }),
    ;

    /// Apply a partial update to the record with the given external
    /// identifier and return the updated record.  A malformed
    /// identifier is a client error; an absent record is `NotFound`;
    /// an update with no present fields applies as identity and still
    /// returns the (unchanged) record.
    fn update(&mut self, id: &str, update: U) -> (r: Result<R, AppError>)
        requires
            old(self).wf(),
        ensures
            final(self).wf(),
            final(self).id_bound() == old(self).id_bound(),
            ({
                let os = parse_oid_spec(id@);
                let s = old(self).models();
                match os {
                    None => {
                        &&& r is Err
                        &&& r->Err_0 is InvalidIdentifier
                        &&& final(self).models() == s
                    },
                    Some(v) => {
                        let canon = oid_hex(v);
                        if exists|i: int|
                            0 <= i < s.len() && E::model_id(#[trigger] s[i]) == Some(canon) {
                            &&& r is Ok
                            &&& exists|i: int|
                                {
                                    &&& 0 <= i < s.len()
                                    &&& E::model_id(#[trigger] s[i]) == Some(canon)
                                    &&& final(self).models() == s.update(i, update.merged(s[i]))
                                    &&& r->Ok_0.deep_view() == R::of_model(update.merged(s[i]))
                                }
                        } else {
                            &&& r is Err
                            &&& r->Err_0 is NotFound
                            &&& final(self).models() == s
                        }
                    },
                }
            }),
    ;

    /// Delete the record with the given external identifier; true
    /// exactly when one record was removed.  A malformed identifier is
    /// a client error; deleting an absent record returns false.
    fn delete(&mut self, id: &str) -> (r: Result<bool, AppError>)
        requires
            old(self).wf(),
        ensures
            final(self).wf(),
            final(self).id_bound() == old(self).id_bound(),
            ({
                let os = parse_oid_spec(id@);
                let s = old(self).models();
                match os {
                    None => {
                        &&& r is Err
                        &&& r->Err_0 is InvalidIdentifier
                        &&& final(self).models() == s
                    },
                    Some(v) => {
                        let canon = oid_hex(v);
                        &&& r is Ok
                        &&& (r->Ok_0 <==> exists|i: int|
                            0 <= i < s.len() && E::model_id(#[trigger] s[i]) == Some(canon))
                        &&& if r->Ok_0 {
                            exists|i: int|
                                {
                                    &&& 0 <= i < s.len()
                                    &&& E::model_id(#[trigger] s[i]) == Some(canon)
                                    &&& final(self).models() == s.remove(i)
                                }
                        } else {
                            final(self).models() == s
                        }
                    },
                }
            }),
    ;

    /// Bulk delete: remove every record matching the criteria and
    /// return how many were removed; zero is valid.
    fn delete_by_criteria<S: Selector<E>>(&mut self, criteria: &S) -> (r: Result<u64, AppError>)
        requires
            old(self).wf(),
        ensures
            final(self).wf(),
            final(self).id_bound() == old(self).id_bound(),
            r is Ok,
            final(self).models() == matching(old(self).models(), not_sel_of(criteria)),
            r->Ok_0 == matching(old(self).models(), sel_of(criteria)).len(),
    ;
}

/// The service implementation over one repository.
pub struct CrudServiceImpl<E: Entity, R: ReadDto<E>, C: CreateDto<E>, U: UpdateDto<E>> {
    pub repository: DatabaseRepository<E>,
    pub dto_kinds: PhantomData<(R, C, U)>,
}

impl<E: Entity, R: ReadDto<E>, C: CreateDto<E>, U: UpdateDto<E>> CrudService<E, R, C, U>
    for CrudServiceImpl<E, R, C, U> {
    open spec fn models(&self) -> Seq<E::V> {
        self.repository.models()
    }

    open spec fn wf(&self) -> bool {
        self.repository.wf()
    }

    open spec fn id_bound(&self) -> u64 {
        self.repository.id_bound()
    }

    fn new(repository: DatabaseRepository<E>) -> (r: Self) {
        CrudServiceImpl { repository, dto_kinds: PhantomData }
    }

    fn get_all(&self) -> (r: Result<Vec<R>, AppError>) {
        let got = self.find::<IdSelector>(None, None);
        proof {
            assert(window(self.models(), None, None) =~= self.models());
        }
        got
    }

    fn find<S: Selector<E>>(&self, filter: Option<&S>, options: Option<FindOptions>) -> (r: Result<
        Vec<R>,
        AppError,
    >) {
        let got = match self.repository.find(filter, options) {
            Ok(v) => v,
            Err(e) => {
                return Err(e);
            },
        };
        let ghost base = got.deep_view();
        let n = got.len();
        let mut out: Vec<R> = Vec::new();
        let mut i: usize = 0;
        while i < n
            invariant
                i <= n,
                n == got.deep_view().len(),
                got.deep_view() == base,
                out@.len() == i,
                forall|j: int|
                    0 <= j < i ==> #[trigger] out@[j].deep_view() == R::of_model(base[j]),
            decreases n - i,
        {
            out.push(R::of_entity(&got[i]));
            i = i + 1;
        }
        proof {
            assert(out.deep_view() =~= read_models::<E, R>(base));
        }
        Ok(out)
    }

    fn get_paginated<S: Selector<E>>(&self, filter: Option<&S>, page: u64, limit: u64) -> (r:
        Result<Pagination<R>, AppError>) {
        let skip: u64 = (page - 1) * limit;
        let options = FindOptions { skip: Some(skip), limit: Some(limit) };
        let payload = match self.find(filter, Some(options)) {
            Ok(v) => v,
            Err(e) => {
                return Err(e);
            },
        };
        let total = self.count(filter);
        let last_page = last_page_for(total, limit);
        Ok(Pagination { current_page: page, last_page, per_page: limit, total, payload })
    }

    fn get_by_id(&self, id: &str) -> (r: Result<Option<R>, AppError>) {
        let v = match parse_oid(id) {
            Some(v) => v,
            None => {
                return Err(
                    AppError::InvalidIdentifier(String::from_str("malformed external identifier")),
                );
            },
        };
        proof {
            lemma_parse_in_range(id@);
        }
        let sel = IdSelector { id: oid_to_hex(v) };
        let ghost s = self.models();
        let ghost p = sel_of::<E, IdSelector>(&sel);
        let found = match self.repository.find_one(&sel) {
            Ok(o) => o,
            Err(e) => {
                return Err(e);
            },
        };
        match found {
            Some(e) => {
                proof {
                    lemma_matching_head(s, p);
                }
                Ok(Some(R::of_entity(&e)))
            },
            None => {
                proof {
                    lemma_matching_empty(s, p);
                    assert forall|i: int| 0 <= i < s.len() implies E::model_id(#[trigger] s[i])
                        != Some(oid_hex(v)) by {
                        assert(!p(s[i]));
                    }
                }
                Ok(None)
            },
        }
    }

    fn count<S: Selector<E>>(&self, filter: Option<&S>) -> (r: u64) {
        match self.repository.count_documents(filter) {
            Ok(c) => c,
            Err(_) => 0,
        }
    }

    fn create(&mut self, dto: C) -> (r: Result<R, AppError>) {
        let e = dto.into_entity();
        match self.repository.insert_one(e) {
            Ok(stored) => Ok(R::of_entity(&stored)),
            Err(err) => Err(err),
        }
    }

    fn update(&mut self, id: &str, update: U) -> (r: Result<R, AppError>) {
        let v = match parse_oid(id) {
            Some(v) => v,
            None => {
                return Err(
                    AppError::InvalidIdentifier(String::from_str("malformed external identifier")),
                );
            },
        };
        proof {
            lemma_parse_in_range(id@);
        }
        let sel = IdSelector { id: oid_to_hex(v) };
        let ghost s = self.models();
        let ghost p = sel_of::<E, IdSelector>(&sel);
        let ghost canon = oid_hex(v);
        match self.repository.update_one(&sel, &update) {
            Ok(rec) => {
                proof {
                    let i = choose|i: int|
                        {
                            &&& 0 <= i < s.len()
                            &&& #[trigger] p(s[i])
                            &&& forall|j: int| 0 <= j < i ==> !p(#[trigger] s[j])
                            &&& self.models() == s.update(i, update.merged(s[i]))
                            &&& rec.deep_view() == update.merged(s[i])
                        };
                    assert(E::model_id(s[i]) == Some(canon));
                }
                Ok(R::of_entity(&rec))
            },
            Err(err) => {
                proof {
                    lemma_matching_empty(s, p);
                    assert forall|i: int| 0 <= i < s.len() implies E::model_id(#[trigger] s[i])
                        != Some(canon) by {
                        assert(!p(s[i]));
                    }
                }
                Err(err)
            },
        }
    }

    fn delete(&mut self, id: &str) -> (r: Result<bool, AppError>) {
        let v = match parse_oid(id) {
            Some(v) => v,
            None => {
                return Err(
                    AppError::InvalidIdentifier(String::from_str("malformed external identifier")),
                );
            },
        };
        proof {
            lemma_parse_in_range(id@);
        }
        let sel = IdSelector { id: oid_to_hex(v) };
        let ghost s = self.models();
        let ghost p = sel_of::<E, IdSelector>(&sel);
        let ghost canon = oid_hex(v);
        let res = match self.repository.delete_one(&sel) {
            Ok(d) => d,
            Err(e) => {
                return Err(e);
            },
        };
        if res.deleted_count > 0 {
            proof {
                let i = choose|i: int|
                    {
                        &&& 0 <= i < s.len()
                        &&& #[trigger] p(s[i])
                        &&& forall|j: int| 0 <= j < i ==> !p(#[trigger] s[j])
                        &&& self.models() == s.remove(i)
                    };
                assert(E::model_id(s[i]) == Some(canon));
            }
            Ok(true)
        } else {
            proof {
                lemma_matching_empty(s, p);
                assert forall|i: int| 0 <= i < s.len() implies E::model_id(#[trigger] s[i])
                    != Some(canon) by {
                    assert(!p(s[i]));
                }
            }
            Ok(false)
        }
    }

    fn delete_by_criteria<S: Selector<E>>(&mut self, criteria: &S) -> (r: Result<u64, AppError>) {
        match self.repository.delete_many(criteria) {
            Ok(d) => Ok(d.deleted_count),
            Err(e) => Err(e),
        }
    }
}

/// After a create, the assigned identifier names exactly the created
/// record: in the extended collection, the first (and only) record
/// carrying the fresh identifier is the created one, so a lookup by
/// that identifier returns a record equal to the created one.
pub proof fn lemma_lookup_after_create<E: Entity>(s: Seq<E::V>, m: E::V, id: Seq<char>)
    requires
        forall|i: int| 0 <= i < s.len() ==> E::model_id(#[trigger] s[i]) != Some(id),
        E::model_id(m) == Some(id),
    ensures
        exists|i: int|
            {
                &&& 0 <= i < s.push(m).len()
                &&& E::model_id(#[trigger] s.push(m)[i]) == Some(id)
                &&& forall|j: int| 0 <= j < i ==> E::model_id(#[trigger] s.push(m)[j]) != Some(id)
                &&& s.push(m)[i] == m
            },
{
    let t = s.push(m);
    let w = s.len() as int;
    assert(t[w] == m);
    assert(forall|j: int| 0 <= j < w ==> t[j] == s[j]);
    assert({
        &&& 0 <= w < t.len()
        &&& E::model_id(t[w]) == Some(id)
        &&& forall|j: int| 0 <= j < w ==> E::model_id(#[trigger] t[j]) != Some(id)
        &&& t[w] == m
    });
}

/// After a delete by identifier, that identifier names nothing: in a
/// well-formed collection identifiers are unique, so removing the
/// record that carried one leaves no record carrying it, and a
/// subsequent lookup returns none — not an error.
pub proof fn lemma_lookup_after_delete<E: Entity>(s: Seq<E::V>, id: Seq<char>, i: int, bound: u64)
    requires
        models_ok::<E>(s, bound),
        0 <= i < s.len(),
        E::model_id(s[i]) == Some(id),
    ensures
        forall|j: int|
            0 <= j < s.remove(i).len() ==> E::model_id(#[trigger] s.remove(i)[j]) != Some(id),
{
    let t = s.remove(i);
    assert forall|j: int| 0 <= j < t.len() implies E::model_id(#[trigger] t[j]) != Some(id) by {
        if j < i {
            assert(t[j] == s[j]);
            assert(E::model_id(s[j]) != E::model_id(s[i]));
        } else {
            assert(t[j] == s[j + 1]);
            assert(E::model_id(s[i]) != E::model_id(s[j + 1]));
        }
    }
}

} // verus!
