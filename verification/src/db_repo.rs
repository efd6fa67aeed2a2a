//! The generic repository: single point of access to one storage
//! collection for one entity type.
//!
//! The collection is modelled as a sequence of records in insertion
//! order, with a counter from which storage-assigned identifiers are
//! drawn.  Every stored record carries a canonical identifier string,
//! and no two stored records share one; `wf` states both.  Each
//! operation's contract is stated over the sequence of record models,
//! through the `matching` selection of a query filter.

use vstd::prelude::*;

use crate::app_error::AppError;
use crate::deep_clone::DeepClone;
use crate::entity::{Entity, IdSelector, Selector, UpdateDto};
use crate::object_id::{
    lemma_oid_bound_value, lemma_oid_round_trip, lemma_parse_in_range, oid_hex, oid_in_range,
    oid_to_hex, parse_oid, parse_oid_spec, OID_LEN,
};

verus! {

/// Options configuring a find: how many matching records to pass
/// over, and a cap on how many to return.  The storage engine's
/// optional sort stage is not represented: this store always hands
/// records back in insertion order, so a requested ordering would
/// have nothing verified to act on.
#[derive(Debug, PartialEq, Eq)]
pub struct FindOptions {
    pub skip: Option<u64>,
    pub limit: Option<u64>,
}

/// Outcome of a delete: how many records were removed.
#[derive(Debug, PartialEq, Eq)]
pub struct DeleteResult {
    pub deleted_count: u64,
}

/// The elements of `s` satisfying `p`, in order.
pub open spec fn matching<M>(s: Seq<M>, p: spec_fn(M) -> bool) -> Seq<M>
    decreases s.len(),
{
    if s.len() == 0 {
        Seq::empty()
    } else if p(s.last()) {
        matching(s.drop_last(), p).push(s.last())
    } else {
        matching(s.drop_last(), p)
    }
}

/// The predicate a selector decides.
pub open spec fn sel_of<E: Entity, S: Selector<E>>(f: &S) -> spec_fn(E::V) -> bool {
    |m: E::V| f.selects(m)
}

/// The complement of the predicate a selector decides.
pub open spec fn not_sel_of<E: Entity, S: Selector<E>>(f: &S) -> spec_fn(E::V) -> bool {
    |m: E::V| !f.selects(m)
}

/// Step lemma: the selection over one more element of a prefix.
pub proof fn lemma_matching_take_step<M>(s: Seq<M>, p: spec_fn(M) -> bool, i: int)
    requires
        0 <= i < s.len(),
    ensures
        matching(s.take(i + 1), p) == if p(s[i]) {
            matching(s.take(i), p).push(s[i])
        } else {
            matching(s.take(i), p)
        },
{
    assert(s.take(i + 1).drop_last() =~= s.take(i));
    assert(s.take(i + 1).last() == s[i]);
}

/// A whole sequence is its own full prefix.
pub proof fn lemma_matching_take_all<M>(s: Seq<M>, p: spec_fn(M) -> bool)
    ensures
        matching(s.take(s.len() as int), p) == matching(s, p),
{
    assert(s.take(s.len() as int) =~= s);
}

/// Nothing satisfies `p`: the selection is empty.
pub proof fn lemma_matching_none<M>(s: Seq<M>, p: spec_fn(M) -> bool)
    requires
        forall|j: int| 0 <= j < s.len() ==> !p(#[trigger] s[j]),
    ensures
        matching(s, p).len() == 0,
    decreases s.len(),
{
    if s.len() > 0 {
        lemma_matching_none(s.drop_last(), p);
    }
}

/// The first element satisfying `p` heads the selection.
pub proof fn lemma_matching_first<M>(s: Seq<M>, p: spec_fn(M) -> bool, i: int)
    requires
        0 <= i < s.len(),
        p(s[i]),
        forall|j: int| 0 <= j < i ==> !p(#[trigger] s[j]),
    ensures
        matching(s, p).len() > 0,
        matching(s, p)[0] == s[i],
    decreases s.len(),
{
    if i == s.len() - 1 {
        lemma_matching_none(s.drop_last(), p);
    } else {
        lemma_matching_first(s.drop_last(), p, i);
    }
}

/// An empty selection means nothing satisfies `p`.
pub proof fn lemma_matching_empty<M>(s: Seq<M>, p: spec_fn(M) -> bool)
    requires
        matching(s, p).len() == 0,
    ensures
        forall|j: int| 0 <= j < s.len() ==> !p(#[trigger] s[j]),
    decreases s.len(),
{
    if s.len() > 0 {
        lemma_matching_empty(s.drop_last(), p);
        assert(forall|j: int| 0 <= j < s.len() - 1 ==> s[j] == s.drop_last()[j]);
        assert(!p(s[s.len() - 1]));
    }
}

/// A nonempty selection is headed by the first element satisfying `p`.
pub proof fn lemma_matching_head<M>(s: Seq<M>, p: spec_fn(M) -> bool)
    requires
        matching(s, p).len() > 0,
    ensures
        exists|i: int|
            {
                &&& 0 <= i < s.len()
                &&& #[trigger] p(s[i])
                &&& forall|j: int| 0 <= j < i ==> !p(#[trigger] s[j])
                &&& matching(s, p)[0] == s[i]
            },
    decreases s.len(),
{
    let t = s.drop_last();
    assert(forall|j: int| 0 <= j < t.len() ==> t[j] == s[j]);
    if matching(t, p).len() > 0 {
        lemma_matching_head(t, p);
        let i = choose|i: int|
            {
                &&& 0 <= i < t.len()
                &&& #[trigger] p(t[i])
                &&& forall|j: int| 0 <= j < i ==> !p(#[trigger] t[j])
                &&& matching(t, p)[0] == t[i]
            };
        assert({
            &&& 0 <= i < s.len()
            &&& p(s[i])
            &&& forall|j: int| 0 <= j < i ==> !p(#[trigger] s[j])
            &&& matching(s, p)[0] == s[i]
        });
    } else {
        let i = s.len() - 1;
        lemma_matching_empty(t, p);
        assert(p(s[i]));
        assert({
            &&& 0 <= i < s.len()
            &&& p(s[i])
            &&& forall|j: int| 0 <= j < i ==> !p(#[trigger] s[j])
            &&& matching(s, p)[0] == s[i]
        });
    }
}

/// Every selected element occurs in the sequence.
pub proof fn lemma_matching_elements<M>(s: Seq<M>, p: spec_fn(M) -> bool)
    ensures
        forall|k: int|
            0 <= k < matching(s, p).len() ==> exists|i: int|
                0 <= i < s.len() && #[trigger] matching(s, p)[k] == s[i],
    decreases s.len(),
{
    if s.len() > 0 {
        lemma_matching_elements(s.drop_last(), p);
        let t = s.drop_last();
        assert forall|k: int| 0 <= k < matching(s, p).len() implies exists|i: int|
            0 <= i < s.len() && #[trigger] matching(s, p)[k] == s[i] by {
            if k < matching(t, p).len() {
                let i = choose|i: int| 0 <= i < t.len() && matching(t, p)[k] == t[i];
                assert(t[i] == s[i]);
                assert(matching(s, p)[k] == s[i]);
            } else {
                assert(matching(s, p)[k] == s[s.len() - 1]);
            }
        }
    }
}

/// Selecting with `p` and with its complement splits the sequence.
pub proof fn lemma_matching_complement_len<M>(s: Seq<M>, p: spec_fn(M) -> bool, q: spec_fn(
    M,
) -> bool)
    requires
        forall|m: M| #[trigger] q(m) <==> !p(m),
    ensures
        matching(s, p).len() + matching(s, q).len() == s.len(),
    decreases s.len(),
{
    if s.len() > 0 {
        lemma_matching_complement_len(s.drop_last(), p, q);
    }
}

/// One stored record is sound for an identifier bound: it has an
/// identifier, the identifier is a canonical hex string, and its
/// value is below the bound.
pub open spec fn stored_ok<E: Entity>(m: E::V, bound: u64) -> bool {
    &&& E::model_id(m) is Some
    &&& parse_oid_spec(E::model_id(m)->0) is Some
    &&& parse_oid_spec(E::model_id(m)->0)->0 < bound as u128
    &&& E::model_id(m)->0 == oid_hex(parse_oid_spec(E::model_id(m)->0)->0)
}

/// All records sound for the bound, and no two sharing an identifier.
pub open spec fn models_ok<E: Entity>(s: Seq<E::V>, bound: u64) -> bool {
    &&& forall|i: int| 0 <= i < s.len() ==> stored_ok::<E>(#[trigger] s[i], bound)
    &&& forall|i: int, j: int|
        0 <= i < j < s.len() ==> E::model_id(#[trigger] s[i]) != E::model_id(#[trigger] s[j])
}

/// A selection out of a sound collection is itself sound.
pub proof fn lemma_models_ok_matching<E: Entity>(s: Seq<E::V>, p: spec_fn(E::V) -> bool, bound: u64)
    requires
        models_ok::<E>(s, bound),
    ensures
        models_ok::<E>(matching(s, p), bound),
    decreases s.len(),
{
    if s.len() > 0 {
        let t = s.drop_last();
        assert(forall|i: int| 0 <= i < t.len() ==> t[i] == s[i]);
        assert(models_ok::<E>(t, bound));
        lemma_models_ok_matching::<E>(t, p, bound);
        lemma_matching_elements(t, p);
        if p(s.last()) {
            let ms = matching(s, p);
            let mt = matching(t, p);
            assert forall|i: int, j: int| 0 <= i < j < ms.len() implies E::model_id(
                #[trigger] ms[i],
            ) != E::model_id(#[trigger] ms[j]) by {
                if j == ms.len() - 1 {
                    let w = choose|w: int| 0 <= w < t.len() && mt[i] == t[w];
                    assert(s[w] == t[w]);
                    assert(E::model_id(s[w]) != E::model_id(s[s.len() - 1]));
                }
            }
        }
    }
}

/// A generic repository over one collection of records of type `E`.
///
/// Records live in insertion order; `next_id` is the counter the next
/// storage-assigned identifier is drawn from.
pub struct DatabaseRepository<E: Entity> {
    pub records: Vec<E>,
    pub next_id: u64,
}

impl<E: Entity> DatabaseRepository<E> {
    /// The stored record models, in insertion order.
    pub open spec fn models(&self) -> Seq<E::V> {
        self.records.deep_view()
    }

    /// The bound below which all assigned identifier values lie.
    pub open spec fn id_bound(&self) -> u64 {
        self.next_id
    }

    /// Well-formedness: every stored record carries a distinct,
    /// canonical, in-bound identifier.
    pub open spec fn wf(&self) -> bool {
        models_ok::<E>(self.models(), self.next_id)
    }

    /// A fresh, empty repository.
    pub fn new() -> (r: Self)
        ensures
            r.wf(),
            r.models() == Seq::<E::V>::empty(),
            r.id_bound() == 0,
    {
        let r = DatabaseRepository { records: Vec::new(), next_id: 0u64 };
        proof {
            assert(r.models() =~= Seq::<E::V>::empty());
        }
        r
    }

    /// All matching records, as copies, honoring the skip/limit window.
    /// An empty result is valid; a find never fails.
    pub fn find<S: Selector<E>>(&self, filter: Option<&S>, options: Option<FindOptions>) -> (r:
        Result<Vec<E>, AppError>)
        ensures
            r is Ok,
            r->Ok_0.deep_view() == window(
                match filter {
                    Some(f) => matching(self.models(), sel_of(f)),
                    None => self.models(),
                },
                match options {
                    Some(o) => o.skip,
                    None => None,
                },
                match options {
                    Some(o) => o.limit,
                    None => None,
                },
            ),
    {
        let all = match filter {
            Some(f) => self.collect_matching(f),
            None => self.collect_all(),
        };
        let (skip, limit) = match options {
            Some(o) => (o.skip, o.limit),
            None => (None, None),
        };
        let ghost base = all.deep_view();
        let start: usize = match skip {
            Some(k) => {
                if k >= all.len() as u64 {
                    all.len()
                } else {
                    k as usize
                }
            },
            None => 0,
        };
        let end: usize = match limit {
            Some(l) => {
                let rest = (all.len() - start) as u64;
                if l >= rest {
                    all.len()
                } else {
                    start + l as usize
                }
            },
            None => all.len(),
        };
        let mut out: Vec<E> = Vec::new();
        let mut i: usize = start;
        while i < end
            invariant
                start <= i <= end <= all.len(),
                all.deep_view() == base,
                out@.len() == i - start,
                forall|j: int|
                    0 <= j < out@.len() ==> #[trigger] out@[j].deep_view() == base[start + j],
            decreases end - i,
        {
            out.push(all[i].deep_clone());
            i = i + 1;
        }
        proof {
            assert(out.deep_view() =~= window(base, skip, limit));
        }
        Ok(out)
    }

    /// The first record matching the filter, as a copy; none is not
    /// an error.
    pub fn find_one<S: Selector<E>>(&self, filter: &S) -> (r: Result<Option<E>, AppError>)
        ensures
            r is Ok,
            ({
                let ms = matching(self.models(), sel_of(filter));
                match r->Ok_0 {
                    Some(e) => ms.len() > 0 && e.deep_view() == ms[0],
                    None => ms.len() == 0,
                }
            }),
    {
        let ghost p = sel_of::<E, S>(filter);
        let n = self.records.len();
        let mut i: usize = 0;
        while i < n
            invariant
                i <= n,
                n == self.models().len(),
                p == sel_of::<E, S>(filter),
                forall|j: int| 0 <= j < i ==> !p(#[trigger] self.models()[j]),
            decreases n - i,
        {
            if filter.test(&self.records[i]) {
                proof {
                    lemma_matching_first(self.models(), p, i as int);
                }
                return Ok(Some(self.records[i].deep_clone()));
            }
            i = i + 1;
        }
        proof {
            lemma_matching_none(self.models(), p);
        }
        Ok(None)
    }

    /// The record with the given external identifier, if any.  The
    /// identifier string is parsed first; a malformed one fails with
    /// `InvalidIdentifier`, which is distinct from "not found" — an
    /// absent record is simply none.
    pub fn find_by_id(&self, id: &str) -> (r: Result<Option<E>, AppError>)
        ensures
            ({
                let os = parse_oid_spec(id@);
                let s = self.models();
                match os {
                    None => r is Err && r->Err_0 is InvalidIdentifier,
                    Some(v) => {
                        let canon = oid_hex(v);
                        &&& r is Ok
                        &&& match r->Ok_0 {
                            None => forall|i: int|
                                0 <= i < s.len() ==> E::model_id(#[trigger] s[i]) != Some(canon),
                            Some(e) => exists|i: int|
                                {
                                    &&& 0 <= i < s.len()
                                    &&& E::model_id(#[trigger] s[i]) == Some(canon)
                                    &&& forall|j: int|
                                        0 <= j < i ==> E::model_id(#[trigger] s[j]) != Some(canon)
                                    &&& e.deep_view() == s[i]
                                },
                        }
                    },
                }
            }),
    {
        let v = match parse_oid(id) {
            Some(v) => v,
            None => {
                return Err(
                    AppError::InvalidIdentifier(String::from_str("malformed external identifier")),
                );
            },
        };
        proof {
            lemma_parse_in_range(id@);
        }
        let sel = IdSelector { id: oid_to_hex(v) };
        let ghost s = self.models();
        let ghost p = sel_of::<E, IdSelector>(&sel);
        match self.find_one(&sel) {
            Ok(Some(e)) => {
                proof {
                    lemma_matching_head(s, p);
                }
                Ok(Some(e))
            },
            Ok(None) => {
                proof {
                    lemma_matching_empty(s, p);
                    assert forall|i: int| 0 <= i < s.len() implies E::model_id(#[trigger] s[i])
                        != Some(oid_hex(v)) by {
                        assert(!p(s[i]));
                    }
                }
                Ok(None)
            },
            Err(e) => Err(e),
        }
    }

    /// Insert a record; storage assigns its identifier, and the
    /// fully hydrated stored copy is returned.
    pub fn insert_one(&mut self, e: E) -> (r: Result<E, AppError>)
        requires
            old(self).wf(),
            E::model_id(e.deep_view()) is None,
            old(self).id_bound() < u64::MAX,
        ensures
            final(self).wf(),
            final(self).id_bound() == old(self).id_bound() + 1,
            r is Ok,
            ({
                let m = r->Ok_0.deep_view();
                let id = oid_hex(old(self).id_bound() as u128);
                &&& m == E::model_with_id(e.deep_view(), Some(id))
                &&& E::model_id(m) == Some(id)
                &&& final(self).models() == old(self).models().push(m)
                &&& forall|i: int|
                    0 <= i < old(self).models().len() ==> E::model_id(
                        #[trigger] old(self).models()[i],
                    ) != Some(id)
            }),
    {
        let ghost v = self.next_id as u128;
        proof {
            lemma_oid_bound_value();
            lemma_oid_round_trip(v);
            E::lemma_model_with_id(e.deep_view(), Some(oid_hex(v)));
        }
        let id_str = oid_to_hex(self.next_id as u128);
        let stored = e.with_id(Some(id_str));
        let ret = stored.deep_clone();
        let ghost m = stored.deep_view();
        let ghost before = self.models();
        assert forall|i: int| 0 <= i < before.len() implies E::model_id(#[trigger] before[i])
            != Some(oid_hex(v)) by {
            if E::model_id(before[i]) == Some(oid_hex(v)) {
                lemma_oid_round_trip(v);
                assert(parse_oid_spec(E::model_id(before[i])->0)->0 == v);
            }
        }
        self.records.push(stored);
        self.next_id = self.next_id + 1;
        proof {
            assert(self.models() =~= before.push(m));
            lemma_oid_round_trip(v);
            assert forall|i: int| 0 <= i < self.models().len() implies stored_ok::<E>(
                #[trigger] self.models()[i],
                self.next_id,
            ) by {
                if i < before.len() {
                    assert(stored_ok::<E>(before[i], old(self).next_id));
                }
            }
        }
        Ok(ret)
    }

    /// Apply a partial update to the first record matching the
    /// filter, and return the resulting record.  "No record matched"
    /// is a distinct outcome (not found) from "matched but the update
    /// was identity" (the unchanged record is returned).
    pub fn update_one<S: Selector<E>, U: UpdateDto<E>>(&mut self, filter: &S, update: &U) -> (r:
        Result<E, AppError>)
        requires
            old(self).wf(),
        ensures
            final(self).wf(),
            final(self).id_bound() == old(self).id_bound(),
            ({
                let s = old(self).models();
                let p = sel_of::<E, S>(filter);
                if matching(s, p).len() == 0 {
                    &&& r is Err
                    &&& r->Err_0 is NotFound
                    &&& final(self).models() == s
                } else {
                    &&& r is Ok
                    &&& exists|i: int|
                        {
                            &&& 0 <= i < s.len()
                            &&& #[trigger] p(s[i])
                            &&& forall|j: int| 0 <= j < i ==> !p(#[trigger] s[j])
                            &&& final(self).models() == s.update(i, update.merged(s[i]))
                            &&& r->Ok_0.deep_view() == update.merged(s[i])
                        }
                }
            }),
    {
        let ghost p = sel_of::<E, S>(filter);
        let ghost s = self.models();
        let n = self.records.len();
        let mut i: usize = 0;
        while i < n
            invariant
                i <= n,
                n == self.models().len(),
                s == old(self).models(),
                self.models() == s,
                p == sel_of::<E, S>(filter),
                self.next_id == old(self).next_id,
                self.wf(),
                forall|j: int| 0 <= j < i ==> !p(#[trigger] self.models()[j]),
            decreases n - i,
        {
            if filter.test(&self.records[i]) {
                proof {
                    lemma_matching_first(s, p, i as int);
                }
                let updated = update.apply(&self.records[i]);
                let ret = updated.deep_clone();
                proof {
                    update.lemma_merged_id(s[i as int]);
                }
                self.records.set(i, updated);
                proof {
                    assert(self.models() =~= s.update(i as int, update.merged(s[i as int])));
                    assert forall|a: int, b: int| 0 <= a < b < self.models().len() implies
                        E::model_id(#[trigger] self.models()[a]) != E::model_id(
                        #[trigger] self.models()[b],
                    ) by {
                        assert(E::model_id(self.models()[a]) == E::model_id(s[a]));
                        assert(E::model_id(self.models()[b]) == E::model_id(s[b]));
                    }
                    let w = i as int;
                    assert({
                        &&& 0 <= w < s.len()
                        &&& p(s[w])
                        &&& forall|j: int| 0 <= j < w ==> !p(#[trigger] s[j])
                        &&& self.models() == s.update(w, update.merged(s[w]))
                        &&& ret.deep_view() == update.merged(s[w])
                    });
                    assert(exists|w: int|
                        {
                            &&& 0 <= w < s.len()
                            &&& #[trigger] p(s[w])
                            &&& forall|j: int| 0 <= j < w ==> !p(#[trigger] s[j])
                            &&& self.models() == s.update(w, update.merged(s[w]))
                            &&& ret.deep_view() == update.merged(s[w])
                        });
                }
                return Ok(ret);
            }
            i = i + 1;
        }
        proof {
            lemma_matching_none(s, p);
        }
        Err(AppError::NotFound(String::from_str("no record matched the update filter")))
    }

    /// Remove the first record matching the filter; the count of
    /// removed records (zero or one) is returned, and zero is valid.
    pub fn delete_one<S: Selector<E>>(&mut self, filter: &S) -> (r: Result<DeleteResult, AppError>)
        requires
            old(self).wf(),
        ensures
            final(self).wf(),
            final(self).id_bound() == old(self).id_bound(),
            r is Ok,
            ({
                let s = old(self).models();
                let p = sel_of::<E, S>(filter);
                if matching(s, p).len() == 0 {
                    &&& r->Ok_0.deleted_count == 0
                    &&& final(self).models() == s
                } else {
                    &&& r->Ok_0.deleted_count == 1
                    &&& exists|i: int|
                        {
                            &&& 0 <= i < s.len()
                            &&& #[trigger] p(s[i])
                            &&& forall|j: int| 0 <= j < i ==> !p(#[trigger] s[j])
                            &&& final(self).models() == s.remove(i)
                        }
                }
            }),
    {
        let ghost p = sel_of::<E, S>(filter);
        let ghost s = self.models();
        let n = self.records.len();
        let mut i: usize = 0;
        while i < n
            invariant
                i <= n,
                n == self.models().len(),
                s == old(self).models(),
                self.models() == s,
                p == sel_of::<E, S>(filter),
                self.next_id == old(self).next_id,
                self.wf(),
                forall|j: int| 0 <= j < i ==> !p(#[trigger] self.models()[j]),
            decreases n - i,
        {
            if filter.test(&self.records[i]) {
                proof {
                    lemma_matching_first(s, p, i as int);
                }
                let ghost w = i as int;
                let _removed = self.records.remove(i);
                proof {
                    assert(self.models() =~= s.remove(i as int));
                    assert forall|a: int| 0 <= a < self.models().len() implies stored_ok::<E>(
                        #[trigger] self.models()[a],
                        self.next_id,
                    ) by {
                        if a < i as int {
                            assert(self.models()[a] == s[a]);
                        } else {
                            assert(self.models()[a] == s[a + 1]);
                        }
                    }
                    assert forall|a: int, b: int| 0 <= a < b < self.models().len() implies
                        E::model_id(#[trigger] self.models()[a]) != E::model_id(
                        #[trigger] self.models()[b],
                    ) by {
                        let oa = if a < i as int { a } else { a + 1 };
                        let ob = if b < i as int { b } else { b + 1 };
                        assert(self.models()[a] == s[oa]);
                        assert(self.models()[b] == s[ob]);
                    }
                }
                proof {
                    assert({
                        &&& 0 <= w < s.len()
                        &&& p(s[w])
                        &&& forall|j: int| 0 <= j < w ==> !p(#[trigger] s[j])
                        &&& self.models() == s.remove(w)
                    });
                    assert(exists|w: int|
                        {
                            &&& 0 <= w < s.len()
                            &&& #[trigger] p(s[w])
                            &&& forall|j: int| 0 <= j < w ==> !p(#[trigger] s[j])
                            &&& self.models() == s.remove(w)
                        });
                }
                return Ok(DeleteResult { deleted_count: 1 });
            }
            i = i + 1;
        }
        proof {
            lemma_matching_none(s, p);
        }
        Ok(DeleteResult { deleted_count: 0 })
    }

    /// Remove every record matching the filter; the count of removed
    /// records is returned, and zero is valid.
    pub fn delete_many<S: Selector<E>>(&mut self, filter: &S) -> (r: Result<DeleteResult, AppError>)
        requires
            old(self).wf(),
        ensures
            final(self).wf(),
            final(self).id_bound() == old(self).id_bound(),
            r is Ok,
            final(self).models() == matching(old(self).models(), not_sel_of(filter)),
            r->Ok_0.deleted_count == matching(old(self).models(), sel_of(filter)).len(),
    {
        let ghost p = sel_of::<E, S>(filter);
        let ghost q = not_sel_of::<E, S>(filter);
        let ghost s = self.models();
        let n = self.records.len();
        let mut kept: Vec<E> = Vec::new();
        let mut i: usize = 0;
        while i < n
            invariant
                i <= n,
                n == self.models().len(),
                s == old(self).models(),
                self.models() == s,
                q == not_sel_of::<E, S>(filter),
                kept.deep_view() == matching(s.take(i as int), q),
            decreases n - i,
        {
            let ghost before = kept.deep_view();
            proof {
                lemma_matching_take_step(s, q, i as int);
            }
            if !filter.test(&self.records[i]) {
                kept.push(self.records[i].deep_clone());
                proof {
                    assert(kept.deep_view() =~= before.push(s[i as int]));
                }
            }
            i = i + 1;
        }
        proof {
            lemma_matching_take_all(s, q);
            lemma_matching_complement_len(s, p, q);
            lemma_models_ok_matching::<E>(s, q, self.next_id);
        }
        let removed = (n - kept.len()) as u64;
        self.records = kept;
        Ok(DeleteResult { deleted_count: removed })
    }

    /// Count the records matching the filter; with no filter, the
    /// whole collection is counted.  In this store the unfiltered
    /// count is exact, not an estimate.
    pub fn count_documents<S: Selector<E>>(&self, filter: Option<&S>) -> (r: Result<u64, AppError>)
        ensures
            r is Ok,
            r->Ok_0 == match filter {
                Some(f) => matching(self.models(), sel_of(f)).len(),
                None => self.models().len(),
            },
    {
        match filter {
            Some(f) => {
                let ghost p = sel_of::<E, S>(f);
                let ghost s = self.models();
                let n = self.records.len();
                let mut count: u64 = 0;
                let mut i: usize = 0;
                while i < n
                    invariant
                        i <= n,
                        n == self.models().len(),
                        s == self.models(),
                        p == sel_of::<E, S>(f),
                        count == matching(s.take(i as int), p).len(),
                        count <= i,
                    decreases n - i,
                {
                    proof {
                        lemma_matching_take_step(s, p, i as int);
                    }
                    if f.test(&self.records[i]) {
                        count = count + 1;
                    }
                    i = i + 1;
                }
                proof {
                    lemma_matching_take_all(s, p);
                }
                Ok(count)
            },
            None => Ok(self.records.len() as u64),
        }
    }

    /// All matching records, in order, as copies.
    fn collect_matching<S: Selector<E>>(&self, filter: &S) -> (r: Vec<E>)
        ensures
            r.deep_view() == matching(self.models(), sel_of(filter)),
    {
        let ghost p = sel_of::<E, S>(filter);
        let ghost s = self.models();
        let n = self.records.len();
        let mut out: Vec<E> = Vec::new();
        let mut i: usize = 0;
        while i < n
            invariant
                i <= n,
                n == self.models().len(),
                s == self.models(),
                p == sel_of::<E, S>(filter),
                out.deep_view() == matching(s.take(i as int), p),
            decreases n - i,
        {
            let ghost before = out.deep_view();
            proof {
                lemma_matching_take_step(s, p, i as int);
            }
            if filter.test(&self.records[i]) {
                out.push(self.records[i].deep_clone());
                proof {
                    assert(out.deep_view() =~= before.push(s[i as int]));
                }
            }
            i = i + 1;
        }
        proof {
            lemma_matching_take_all(s, p);
        }
        out
    }

    /// All records, in order, as copies.
    fn collect_all(&self) -> (r: Vec<E>)
        ensures
            r.deep_view() == self.models(),
    {
        let n = self.records.len();
        let mut out: Vec<E> = Vec::new();
        let mut i: usize = 0;
        while i < n
            invariant
                i <= n,
                n == self.models().len(),
                out@.len() == i,
                forall|j: int|
                    0 <= j < i ==> #[trigger] out@[j].deep_view() == self.models()[j],
            decreases n - i,
        {
            out.push(self.records[i].deep_clone());
            i = i + 1;
        }
        proof {
            assert(out.deep_view() =~= self.models());
        }
        out
    }
}

/// The `skip`/`limit` window of a result sequence: pass over the
/// first `skip` elements, then take at most `limit`.
pub open spec fn window<M>(s: Seq<M>, skip: Option<u64>, limit: Option<u64>) -> Seq<M> {
    let start = match skip {
        Some(k) => if k as int <= s.len() {
            k as int
        } else {
            s.len() as int
        },
        None => 0,
    };
    let rest = s.skip(start);
    match limit {
        Some(l) => if l as int <= rest.len() {
            rest.take(l as int)
        } else {
            rest
        },
        None => rest,
    }
}

} // verus!

