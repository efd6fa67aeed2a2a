//! Structural duplication.
//!
//! Every record and DTO type of this crate abstracts to a mathematical
//! model through `DeepView`.  Repository and service contracts are
//! stated over those models, so the store needs a way to hand out
//! copies of records that provably denote the same model.  `DeepClone`
//! is that capability: a clone whose result has the same deep view as
//! the original.

use vstd::prelude::*;

verus! {

/// A duplication that provably preserves the value's model.
pub trait DeepClone: DeepView + Sized {
    /// Produce a copy denoting the same model.
    fn deep_clone(&self) -> (r: Self)
        ensures
            r.deep_view() == self.deep_view(),
    ;
}

impl DeepClone for bool {
    fn deep_clone(&self) -> (r: Self)
        ensures
            r.deep_view() == self.deep_view(),
    {
        *self
    }
}

impl DeepClone for u8 {
    fn deep_clone(&self) -> (r: Self)
        ensures
            r.deep_view() == self.deep_view(),
    {
        *self
    }
}

impl DeepClone for u32 {
    fn deep_clone(&self) -> (r: Self)
        ensures
            r.deep_view() == self.deep_view(),
    {
        *self
    }
}

impl DeepClone for u64 {
    fn deep_clone(&self) -> (r: Self)
        ensures
            r.deep_view() == self.deep_view(),
    {
        *self
    }
}

impl DeepClone for i32 {
    fn deep_clone(&self) -> (r: Self)
        ensures
            r.deep_view() == self.deep_view(),
    {
        *self
    }
}

impl DeepClone for i64 {
    fn deep_clone(&self) -> (r: Self)
        ensures
            r.deep_view() == self.deep_view(),
    {
        *self
    }
}

impl DeepClone for String {
    fn deep_clone(&self) -> (r: Self)
        ensures
            r.deep_view() == self.deep_view(),
    {
        self.clone()
    }
}

impl<T: DeepClone> DeepClone for Option<T> {
    fn deep_clone(&self) -> (r: Self)
        ensures
            r.deep_view() == self.deep_view(),
    {
        match self {
            Some(t) => Some(t.deep_clone()),
            None => None,
        }
    }
}

/// A conversion between two shapes of the same model: the stored
/// record shape and its DTO shape denote the same mathematical value,
/// and `reshape` carries one into the other.
pub trait Reshape<A: DeepView>: DeepView<V = A::V> + Sized {
    /// Rebuild the value in this shape.
    fn reshape(a: &A) -> (r: Self)
        ensures
            r.deep_view() == a.deep_view(),
    ;
}

impl<A: DeepView, B: Reshape<A>> Reshape<Option<A>> for Option<B> {
    fn reshape(a: &Option<A>) -> (r: Self)
        ensures
            r.deep_view() == a.deep_view(),
    {
        match a {
            Some(x) => Some(B::reshape(x)),
            None => None,
        }
    }
}

impl<A: DeepView, B: Reshape<A>> Reshape<Vec<A>> for Vec<B> {
    fn reshape(a: &Vec<A>) -> (r: Self)
        ensures
            r.deep_view() == a.deep_view(),
    {
        let mut r: Vec<B> = Vec::new();
        let mut i: usize = 0;
        while i < a.len()
            invariant
                i <= a.len(),
                r@.len() == i,
                forall|j: int| 0 <= j < i ==> #[trigger] r@[j].deep_view() == a@[j].deep_view(),
            decreases a.len() - i,
        {
            r.push(B::reshape(&a[i]));
            i = i + 1;
        }
        proof {
            assert(r.deep_view() =~= a.deep_view());
        }
        r
    }
}

impl<T: DeepClone> DeepClone for Vec<T> {
    fn deep_clone(&self) -> (r: Self)
        ensures
            r.deep_view() == self.deep_view(),
    {
        let mut r: Vec<T> = Vec::new();
        let mut i: usize = 0;
        while i < self.len()
            invariant
                i <= self.len(),
                r@.len() == i,
                forall|j: int|
                    0 <= j < i ==> #[trigger] r@[j].deep_view() == self@[j].deep_view(),
            decreases self.len() - i,
        {
            r.push(self[i].deep_clone());
            i = i + 1;
        }
        proof {
            assert(r.deep_view() =~= self.deep_view());
        }
        r
    }
}

} // verus!
