//! Seat-count aggregation over a response envelope.
//!
//! The selection predicate is fixed: a record counts when its product kind
//! equals the criterion's product and its major version equals the required
//! major version.  Matching counts are summed exactly as the server reported
//! them — negative values included, never clamped — and an empty match set
//! sums to zero, never an error.

use vstd::prelude::*;

use crate::response::License;
use crate::response::Product;
use crate::response::ResponseEnvelope;

verus! {

/// What the caller is chasing: a product kind and the major version it must
/// carry.
#[derive(Clone, Copy, Debug, PartialEq, Eq, Structural)]
pub struct SelectionCriterion {
    pub product: Product,
    pub required_major: u8,
}

/// Whether one license record falls under the criterion.
pub open spec fn record_matches(l: License, c: SelectionCriterion) -> bool {
    l.product_id == c.product && l.version.major == c.required_major
}

/// The sum of `available` over the records that fall under the criterion.
pub open spec fn available_sum(ls: Seq<License>, c: SelectionCriterion) -> int
    decreases ls.len(),
{
    if ls.len() == 0 {
        0
    } else {
        available_sum(ls.drop_last(), c) + if record_matches(ls.last(), c) {
            ls.last().available as int
        } else {
            0
        }
    }
}

proof fn lemma_available_sum_bound(ls: Seq<License>, c: SelectionCriterion)
    ensures
        -0x8000_0000 * ls.len() <= available_sum(ls, c) <= 0x8000_0000 * ls.len(),
    decreases ls.len(),
{
    if ls.len() > 0 {
        lemma_available_sum_bound(ls.drop_last(), c);
    }
}

/// Total available seats under the criterion; `0` for an empty (or entirely
/// non-matching) license list.  The sum is exact for every envelope: it is
/// returned in a width no sum of 32-bit counts can overflow.
pub fn aggregate(env: &ResponseEnvelope, c: &SelectionCriterion) -> (r: i128)
    ensures
        r == available_sum(env.licenses@, *c),
{
    let n = env.licenses.len();
    let mut total: i128 = 0;
    let mut i: usize = 0;
    while i < n
        invariant
            0 <= i <= n == env.licenses@.len(),
            total == available_sum(env.licenses@.subrange(0, i as int), *c),
            -0x8000_0000 * (i as int) <= total <= 0x8000_0000 * (i as int),
        decreases n - i,
    {
        let lic = &env.licenses[i];
        proof {
            let prefix = env.licenses@.subrange(0, (i + 1) as int);
            assert(prefix.drop_last() =~= env.licenses@.subrange(0, i as int));
            assert(prefix.last() == env.licenses@[i as int]);
        }
        if lic.product_id == c.product && lic.version.major == c.required_major {
            total = total + (lic.available as i128);
        }
        i += 1;
    }
    proof {
        assert(env.licenses@.subrange(0, n as int) =~= env.licenses@);
    }
    total
}

/// An empty license list aggregates to zero under every criterion.
pub proof fn lemma_aggregate_empty(c: SelectionCriterion)
    ensures
        available_sum(Seq::<License>::empty(), c) == 0,
{
}

/// The sum distributes over concatenation: a listing split across server
/// shards contributes shard by shard, duplicates and all.
pub proof fn lemma_available_sum_concat(s1: Seq<License>, s2: Seq<License>, c: SelectionCriterion)
    ensures
        available_sum(s1 + s2, c) == available_sum(s1, c) + available_sum(s2, c),
    decreases s2.len(),
{
    if s2.len() == 0 {
        assert(s1 + s2 =~= s1);
    } else {
        lemma_available_sum_concat(s1, s2.drop_last(), c);
        assert((s1 + s2).drop_last() =~= s1 + s2.drop_last());
        assert((s1 + s2).last() == s2.last());
    }
}

/// The order two shards arrive in cannot change the aggregated total: the
/// sum is commutative.
pub proof fn lemma_available_sum_order(s1: Seq<License>, s2: Seq<License>, c: SelectionCriterion)
    ensures
        available_sum(s1 + s2, c) == available_sum(s2 + s1, c),
{
    lemma_available_sum_concat(s1, s2, c);
    lemma_available_sum_concat(s2, s1, c);
}

} // verus!
