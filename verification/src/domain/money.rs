use vstd::prelude::*;

verus! {

/// Every amount of the ledger is a whole number of minor units: hundredths
/// of the currency unit. A single entry holds its amount in an `i64`; totals
/// over many entries are held in an `i128`.
pub const MINOR_PER_UNIT: i64 = 100;

/// The largest magnitude that a total over the amounts of one vector can
/// reach: `2^127 - 2^63`, which is `(2^64 - 1) * 2^63`.
pub const TOTAL_LIMIT: i128 = 0x7fff_ffff_ffff_ffff_8000_0000_0000_0000;

/// Whether `total` is a value that a total over one vector can take.
pub open spec fn within_total_limit(total: int) -> bool {
    -TOTAL_LIMIT <= total <= TOTAL_LIMIT
}

/// A sum of `count` amounts of 64 bits, for a `count` that a vector's length
/// can take, stays within the limit of totals.
pub proof fn lemma_i64_sum_within_limit(count: int, total: int)
    requires
        0 <= count <= usize::MAX,
        count * i64::MIN <= total <= count * i64::MAX,
    ensures
        within_total_limit(total),
{
}

} // verus!
