//! The partition planner: how many equal-capacity partitions a batch of
//! sectors needs, given the configuration's per-partition sector capacity.

use vstd::prelude::*;
use crate::config::ProofConfiguration;

verus! {

/// Ceiling division: the least number of chunks of size `cap` that cover
/// `total` items.
pub open spec fn ceil_div(total: int, cap: int) -> int
    recommends
        cap > 0,
{
    (total + cap - 1) / cap
}

/// The number of partitions the proving call receives for `total` sectors:
/// `None` (a single implicit partition) whenever one partition suffices,
/// the explicit count otherwise.
pub open spec fn spec_partitions(total: int, cap: int) -> Option<usize>
    recommends
        cap > 0,
{
    if ceil_div(total, cap) > 1 {
        Some(ceil_div(total, cap) as usize)
    } else {
        None
    }
}

/// The number of proofs one proving run emits: the explicit partition count
/// where the batch must be split, and one for the single implicit partition
/// otherwise.
pub open spec fn spec_partition_count(total: int, cap: int) -> int
    recommends
        cap > 0,
{
    if ceil_div(total, cap) > 1 {
        ceil_div(total, cap)
    } else {
        1
    }
}

/// Plans the partitioning of `total_sector_count` sectors into chunks of the
/// configuration's per-partition capacity: `ceil(total / capacity)` chunks,
/// reported as `None` when that is at most one, because the circuit setup
/// treats "no explicit partition count" and "one partition" alike.
pub fn get_partitions_for_window_post(
    total_sector_count: usize,
    post_config: &ProofConfiguration,
) -> (r: Option<usize>)
    requires
        post_config.sector_count > 0,
    ensures
        r == spec_partitions(total_sector_count as int, post_config.sector_count as int),
        total_sector_count <= post_config.sector_count ==> r is None,
        total_sector_count > post_config.sector_count ==> (r matches Some(k) && k
            == ceil_div(total_sector_count as int, post_config.sector_count as int)),
{
    let cap = post_config.sector_count;
    let q = total_sector_count / cap;
    let rem = total_sector_count % cap;
    proof {
        vstd::arithmetic::div_mod::lemma_fundamental_div_mod(
            total_sector_count as int,
            cap as int,
        );
        lemma_ceil_div_structure(total_sector_count as int, cap as int);
        if rem > 0 {
            assert(q < total_sector_count) by (nonlinear_arith)
                requires
                    total_sector_count == cap * q + rem,
                    0 < rem,
                    1 <= cap,
                    0 <= q,
            ;
        }
    }
    let partitions = if rem > 0 {
        q + 1
    } else {
        q
    };
    if partitions > 1 {
        Some(partitions)
    } else {
        None
    }
}

/// How the planned partition count relates to the batch: an empty batch has
/// no chunks, a non-empty batch needs exactly the ceiling, and the planned
/// slots never exceed the batch by more than one partition's capacity.
pub proof fn lemma_partition_cover(total: int, cap: int)
    requires
        0 <= total,
        0 < cap,
    ensures
        total == 0 ==> ceil_div(total, cap) == 0,
        total >= 1 ==> spec_partition_count(total, cap) == ceil_div(total, cap),
        spec_partition_count(total, cap) * cap <= total + cap,
{
    let q = (total + cap - 1) / cap;
    vstd::arithmetic::div_mod::lemma_fundamental_div_mod(total + cap - 1, cap);
    vstd::arithmetic::div_mod::lemma_mod_bound(total + cap - 1, cap);
    if total == 0 {
        vstd::arithmetic::div_mod::lemma_basic_div(cap - 1, cap);
        vstd::arithmetic::mul::lemma_mul_basics(cap);
    } else {
        vstd::arithmetic::div_mod::lemma_div_is_ordered(cap, total + cap - 1, cap);
        vstd::arithmetic::div_mod::lemma_div_by_self(cap);
        assert(q >= 1);
        assert(cap * q <= total + cap - 1);
        if q == 1 {
            vstd::arithmetic::mul::lemma_mul_basics(cap);
        }
    }
}

/// Ceiling division computed from quotient and remainder, and its placement
/// relative to one partition: at most one partition is needed exactly when
/// the batch fits inside one capacity.
proof fn lemma_ceil_div_structure(total: int, cap: int)
    requires
        0 <= total,
        0 < cap,
    ensures
        ceil_div(total, cap) == total / cap + (if total % cap > 0 { 1int } else { 0int }),
        (ceil_div(total, cap) <= 1) <==> (total <= cap),
{
    let q = total / cap;
    let r = total % cap;
    vstd::arithmetic::div_mod::lemma_fundamental_div_mod(total, cap);
    vstd::arithmetic::div_mod::lemma_mod_bound(total, cap);
    vstd::arithmetic::div_mod::lemma_div_pos_is_pos(total, cap);
    if r > 0 {
        assert(total + cap - 1 == (q + 1) * cap + (r - 1)) by (nonlinear_arith)
            requires
                total == cap * q + r,
        ;
        vstd::arithmetic::div_mod::lemma_fundamental_div_mod_converse(
            total + cap - 1,
            cap,
            q + 1,
            r - 1,
        );
    } else {
        assert(total + cap - 1 == q * cap + (cap - 1)) by (nonlinear_arith)
            requires
                total == cap * q + r && r == 0,
        ;
        vstd::arithmetic::div_mod::lemma_fundamental_div_mod_converse(
            total + cap - 1,
            cap,
            q,
            cap - 1,
        );
    }
    assert((q + (if r > 0 { 1int } else { 0int }) <= 1) <==> (total <= cap)) by (nonlinear_arith)
        requires
            total == cap * q + r,
            0 <= r < cap,
            0 <= q,
    ;
}

} // verus!
