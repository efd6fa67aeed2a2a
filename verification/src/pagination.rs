//! Pagination envelope and its page arithmetic.

use vstd::prelude::*;

verus! {

/// One page of results together with page and total metadata.
#[derive(Debug, PartialEq, Eq)]
pub struct Pagination<T> {
    pub current_page: u64,
    pub last_page: u64,
    pub per_page: u64,
    pub total: u64,
    pub payload: Vec<T>,
}

/// Number of pages needed for `total` records at `limit` records a
/// page: the ceiling of `total / limit`, and zero when there is
/// nothing to page.
pub open spec fn pages_for(total: int, limit: int) -> int {
    if total == 0 {
        0
    } else {
        (total - 1) / limit + 1
    }
}

/// `pages_for` is the ceiling of `total / limit`: its pages hold all
/// records, one fewer page would not, and there are no pages exactly
/// when there are no records.
pub proof fn lemma_pages_for_is_ceiling(total: int, limit: int)
    requires
        total >= 0,
        limit >= 1,
    ensures
        pages_for(total, limit) * limit >= total,
        total > 0 ==> (pages_for(total, limit) - 1) * limit < total,
        pages_for(total, limit) == 0 <==> total == 0,
        pages_for(total, limit) >= 0,
{
    if total > 0 {
        let q = (total - 1) / limit;
        let r = (total - 1) % limit;
        vstd::arithmetic::div_mod::lemma_fundamental_div_mod(total - 1, limit);
        vstd::arithmetic::div_mod::lemma_mod_bound(total - 1, limit);
        assert(total - 1 == limit * q + r);
        assert((q + 1) * limit == limit * q + limit) by {
            vstd::arithmetic::mul::lemma_mul_is_distributive_add_other_way(limit, q, 1);
        }
        assert(q * limit == limit * q) by {
            vstd::arithmetic::mul::lemma_mul_is_commutative(q, limit);
        }
        vstd::arithmetic::div_mod::lemma_div_pos_is_pos(total - 1, limit);
    }
}

/// Last page number for `total` records at `limit` a page.
pub fn last_page_for(total: u64, limit: u64) -> (r: u64)
    requires
        limit >= 1,
    ensures
        r == pages_for(total as int, limit as int),
{
    if total == 0 {
        0
    } else {
        proof {
            vstd::arithmetic::div_mod::lemma_div_nonincreasing(total as int - 1, limit as int);
            vstd::arithmetic::div_mod::lemma_div_pos_is_pos(total as int - 1, limit as int);
        }
        (total - 1) / limit + 1
    }
}

} // verus!
