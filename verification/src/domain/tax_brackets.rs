use crate::domain::money::within_total_limit;
use vstd::prelude::*;

verus! {

/// One step of a progressive scale. Income above `lower` and up to `upper`
/// falls into it; without an `upper` it takes all income above `lower`. The
/// tax there is `base_tax` plus `rate_percent` of what exceeds `lower`.
/// Amounts are in minor units.
#[derive(Clone, Copy, Debug)]
pub struct TaxBracket {
    pub lower: i64,
    pub upper: Option<i64>,
    pub rate_percent: u8,
    pub base_tax: i64,
}

impl TaxBracket {
    /// Whether `total` does not lie above the bracket.
    pub open spec fn reaches(self, total: int) -> bool {
        match self.upper {
            Some(upper) => total <= upper,
            None => true,
        }
    }

    /// The bracket is not empty, its rate is at most 100 percent and its base
    /// tax is not negative.
    pub open spec fn well_formed(self) -> bool {
        &&& self.rate_percent <= 100
        &&& self.base_tax >= 0
        &&& self.upper matches Some(upper) ==> self.lower < upper
    }

    /// The tax that the bracket asks on `total`, rounded down to a whole
    /// minor unit.
    pub open spec fn tax_on(self, total: int) -> int {
        self.base_tax + ((total - self.lower) * self.rate_percent) / 100
    }
}

/// A scale is valid when its brackets start at 0, follow each other without
/// gap or overlap, and end with the one bracket that has no upper bound;
/// no rate is above 100 percent and no base tax is negative.
pub open spec fn valid_scale(scale: Seq<TaxBracket>) -> bool {
    &&& scale.len() > 0
    &&& scale[0].lower == 0
    &&& scale.last().upper is None
    &&& forall|i: int| 0 <= i < scale.len() ==> (#[trigger] scale[i]).well_formed()
    &&& forall|i: int, j: int|
        0 <= i && j == i + 1 && j < scale.len() ==> (#[trigger] scale[i]).upper == Some(
            (#[trigger] scale[j]).lower,
        )
}

/// Bracket `i` is the bracket of `total`: the first one, in ascending order,
/// that `total` does not lie above.
pub open spec fn is_bracket_of(scale: Seq<TaxBracket>, i: int, total: int) -> bool {
    &&& 0 <= i < scale.len()
    &&& scale[i].reaches(total)
    &&& forall|j: int| 0 <= j < i ==> !(#[trigger] scale[j]).reaches(total)
}

/// The index of the bracket of `total`.
pub open spec fn bracket_of(scale: Seq<TaxBracket>, total: int) -> int {
    choose|i: int| is_bracket_of(scale, i, total)
}

/// The tax on a total income before deductions.
pub open spec fn raw_tax(scale: Seq<TaxBracket>, total: int) -> int {
    scale[bracket_of(scale, total)].tax_on(total)
}

/// The tax to pay: the raw tax less the deductions, and never less than 0.
pub open spec fn tax_due(scale: Seq<TaxBracket>, income: int, deductions: int) -> int {
    let owed = raw_tax(scale, income) - deductions;
    if owed > 0 {
        owed
    } else {
        0
    }
}

/// No total has two brackets.
pub proof fn lemma_bracket_unique(scale: Seq<TaxBracket>, i: int, total: int)
    requires
        is_bracket_of(scale, i, total),
    ensures
        bracket_of(scale, total) == i,
{
}

/// In a valid scale every total has its bracket.
pub proof fn lemma_bracket_exists(scale: Seq<TaxBracket>, total: int)
    requires
        valid_scale(scale),
    ensures
        is_bracket_of(scale, bracket_of(scale, total), total),
{
    lemma_first_reaching(scale, total, scale.len() - 1);
}

/// Where a total does not lie above bracket `n`, one of the brackets up to
/// `n` is its bracket.
proof fn lemma_first_reaching(scale: Seq<TaxBracket>, total: int, n: int)
    requires
        0 <= n < scale.len(),
        scale[n].reaches(total),
    ensures
        exists|i: int| is_bracket_of(scale, i, total),
    decreases n,
{
    if forall|j: int| 0 <= j < n ==> !(#[trigger] scale[j]).reaches(total) {
        assert(is_bracket_of(scale, n, total));
    } else {
        let j = choose|j: int| 0 <= j < n && (#[trigger] scale[j]).reaches(total);
        lemma_first_reaching(scale, total, j);
    }
}

/// In a valid scale no bracket starts below 0.
pub proof fn lemma_lower_not_negative(scale: Seq<TaxBracket>, i: int)
    requires
        valid_scale(scale),
        0 <= i < scale.len(),
    ensures
        scale[i].lower >= 0,
    decreases i,
{
    if i > 0 {
        lemma_lower_not_negative(scale, i - 1);
    }
}

/// In a valid scale every bracket before bracket `i` ends at or below the
/// start of bracket `i`.
pub proof fn lemma_earlier_brackets_below(scale: Seq<TaxBracket>, j: int, i: int)
    requires
        valid_scale(scale),
        0 <= j < i < scale.len(),
    ensures
        scale[j].upper matches Some(upper) && upper <= scale[i].lower,
    decreases i - j,
{
    if j + 1 < i {
        lemma_earlier_brackets_below(scale, j + 1, i);
    }
}

/// In a valid scale a total above the start of bracket `i` (any total, for
/// the first bracket) and not above its end has bracket `i`.
pub proof fn lemma_bracket_by_bounds(scale: Seq<TaxBracket>, i: int, total: int)
    requires
        valid_scale(scale),
        0 <= i < scale.len(),
        i == 0 || scale[i].lower < total,
        scale[i].reaches(total),
    ensures
        is_bracket_of(scale, i, total),
        bracket_of(scale, total) == i,
{
    assert forall|j: int| 0 <= j < i implies !(#[trigger] scale[j]).reaches(total) by {
        lemma_earlier_brackets_below(scale, j, i);
    }
    lemma_bracket_unique(scale, i, total);
}

/// Within one bracket the raw tax never falls as the total grows, and it
/// grows by no more than the total does.
pub proof fn lemma_raw_tax_steady_within_bracket(scale: Seq<TaxBracket>, a: int, b: int)
    requires
        valid_scale(scale),
        a <= b,
        bracket_of(scale, a) == bracket_of(scale, b),
    ensures
        0 <= raw_tax(scale, b) - raw_tax(scale, a) <= b - a,
{
    lemma_bracket_exists(scale, a);
    let bracket = scale[bracket_of(scale, a)];
    let rate = bracket.rate_percent as int;
    let low = (a - bracket.lower) * rate;
    let high = (b - bracket.lower) * rate;
    assert(0 <= high - low <= 100 * (b - a)) by (nonlinear_arith)
        requires
            low == (a - bracket.lower) * rate,
            high == (b - bracket.lower) * rate,
            0 <= rate <= 100,
            a <= b,
    ;
}

/// The raw tax is continuous below each boundary of a valid scale: a total
/// that lies `gap` below the end of bracket `i`, and still in that bracket,
/// is taxed at most `gap` less than the end itself, and never more.
pub proof fn lemma_raw_tax_continuous_at_boundary(scale: Seq<TaxBracket>, i: int, gap: int)
    requires
        valid_scale(scale),
        0 <= i < scale.len() - 1,
        0 <= gap < scale[i].upper->0 - scale[i].lower,
    ensures
        0 <= raw_tax(scale, scale[i].upper->0 as int) - raw_tax(
            scale,
            scale[i].upper->0 - gap,
        ) <= gap,
{
    let end = scale[i].upper->0 as int;
    lemma_bracket_by_bounds(scale, i, end);
    lemma_bracket_by_bounds(scale, i, end - gap);
    lemma_raw_tax_steady_within_bracket(scale, end - gap, end);
}

/// A scale rises where no bracket starts with a base tax below what the
/// bracket before it asks at its end.
pub open spec fn rising_scale(scale: Seq<TaxBracket>) -> bool {
    forall|i: int, j: int|
        0 <= i && j == i + 1 && j < scale.len() ==> (#[trigger] scale[i]).tax_on(
            scale[j].lower as int,
        ) <= (#[trigger] scale[j]).base_tax
}

/// In a valid scale that rises, what bracket `i` asks at its end is no more
/// than the base tax of any later bracket.
proof fn lemma_later_base_not_below(scale: Seq<TaxBracket>, i: int, j: int)
    requires
        valid_scale(scale),
        rising_scale(scale),
        0 <= i < j < scale.len(),
    ensures
        scale[i].tax_on(scale[i + 1].lower as int) <= scale[j].base_tax,
    decreases j - i,
{
    if i + 1 < j {
        lemma_later_base_not_below(scale, i + 1, j);
        let next = scale[i + 1];
        let rate = next.rate_percent as int;
        let width = scale[i + 2].lower - next.lower;
        assert(0 <= width * rate) by (nonlinear_arith)
            requires
                0 <= width,
                0 <= rate,
        ;
    }
}

/// Under a valid scale that rises, a higher total is never taxed less than a
/// lower one.
pub proof fn lemma_raw_tax_monotonic_on_rising_scale(scale: Seq<TaxBracket>, a: int, b: int)
    requires
        valid_scale(scale),
        rising_scale(scale),
        a <= b,
    ensures
        raw_tax(scale, a) <= raw_tax(scale, b),
{
    lemma_bracket_exists(scale, a);
    lemma_bracket_exists(scale, b);
    let i = bracket_of(scale, a);
    let j = bracket_of(scale, b);
    if i == j {
        lemma_raw_tax_steady_within_bracket(scale, a, b);
    } else {
        let end = scale[i + 1].lower as int;
        lemma_bracket_by_bounds(scale, i, end);
        lemma_raw_tax_steady_within_bracket(scale, a, end);
        lemma_later_base_not_below(scale, i, j);
        assert(!scale[j - 1].reaches(b));
        let rate = scale[j].rate_percent as int;
        let excess = b - scale[j].lower;
        assert(0 <= excess * rate) by (nonlinear_arith)
            requires
                0 <= excess,
                0 <= rate,
        ;
    }
}

/// `rate_percent` of `excess`, rounded down.
fn rate_share(excess: i128, rate_percent: u8) -> (share: i128)
    requires
        rate_percent <= 100,
        within_total_limit(excess as int),
    ensures
        share == (excess * rate_percent) / 100,
        excess >= 0 ==> 0 <= share <= excess,
        excess < 0 ==> excess <= share <= 0,
{
    let hundreds: i128 = match excess.checked_div_euclid(100) {
        Some(q) => q,
        None => 0,
    };
    let rest: i128 = match excess.checked_rem_euclid(100) {
        Some(r) => r,
        None => 0,
    };
    let rate: i128 = rate_percent as i128;
    assert(0 <= rest * rate <= rest * 100) by (nonlinear_arith)
        requires
            0 <= rest,
            0 <= rate <= 100,
    ;
    assert(hundreds >= 0 ==> 0 <= hundreds * rate <= hundreds * 100) by (nonlinear_arith)
        requires
            0 <= rate <= 100,
    ;
    assert(excess * rate == 100 * (hundreds * rate) + rest * rate) by (nonlinear_arith)
        requires
            excess == 100 * hundreds + rest,
    ;
    assert(excess < 0 ==> excess * 100 <= excess * rate <= 0) by (nonlinear_arith)
        requires
            0 <= rate <= 100,
    ;
    hundreds * rate + (rest * rate) / 100
}

/// The raw tax on `total` under `scale`: the scale is walked in ascending
/// order up to the first bracket that `total` does not lie above.
pub fn raw_tax_of(scale: &Vec<TaxBracket>, total: i128) -> (tax: i128)
    requires
        valid_scale(scale@),
        within_total_limit(total as int),
    ensures
        tax == raw_tax(scale@, total as int),
        total >= 0 ==> 0 <= tax <= total + i64::MAX,
        total < 0 ==> total <= tax <= i64::MAX,
{
    let mut i: usize = 0;
    loop
        invariant
            valid_scale(scale@),
            within_total_limit(total as int),
            0 <= i < scale.len(),
            forall|j: int| 0 <= j < i ==> !(#[trigger] scale@[j]).reaches(total as int),
        decreases scale.len() - i,
    {
        let bracket = scale[i];
        let reached = match bracket.upper {
            Some(upper) => total <= upper as i128,
            None => true,
        };
        if reached {
            proof {
                lemma_bracket_unique(scale@, i as int, total as int);
                if i > 0 {
                    assert(!scale@[i - 1].reaches(total as int));
                }
                lemma_lower_not_negative(scale@, i as int);
            }
            let excess = total - bracket.lower as i128;
            let share = rate_share(excess, bracket.rate_percent);
            return bracket.base_tax as i128 + share;
        }
        i = i + 1;
    }
}

/// The tax to pay on a raw tax and a total of deductions.
pub fn settle(raw: i128, deductions: i128) -> (due: u128)
    requires
        within_total_limit(deductions as int),
    ensures
        due == if raw - deductions > 0 {
            raw - deductions
        } else {
            0
        },
{
    if raw <= deductions {
        0
    } else if deductions >= 0 || raw < 0 {
        (raw - deductions) as u128
    } else {
        raw as u128 + (-deductions) as u128
    }
}

/// Whether `scale` is a valid scale.
pub fn is_valid_scale(scale: &Vec<TaxBracket>) -> (valid: bool)
    ensures
        valid == valid_scale(scale@),
{
    let n = scale.len();
    if n == 0 {
        return false;
    }
    if scale[0].lower != 0 {
        return false;
    }
    if scale[n - 1].upper.is_some() {
        return false;
    }
    let mut i: usize = 0;
    while i < n
        invariant
            n == scale.len(),
            0 <= i <= n,
            scale@.last().upper is None,
            forall|k: int| 0 <= k < i ==> (#[trigger] scale@[k]).well_formed(),
            forall|k: int, l: int|
                0 <= k < i && l == k + 1 && l < n ==> (#[trigger] scale@[k]).upper == Some(
                    (#[trigger] scale@[l]).lower,
                ),
        decreases n - i,
    {
        let bracket = scale[i];
        if bracket.rate_percent > 100 || bracket.base_tax < 0 {
            return false;
        }
        match bracket.upper {
            Some(upper) => {
                if bracket.lower >= upper {
                    return false;
                }
                if scale[i + 1].lower != upper {
                    assert(scale@[i as int].upper != Some(scale@[i + 1].lower));
                    return false;
                }
            },
            None => {
                if i < n - 1 {
                    return false;
                }
            },
        }
        i = i + 1;
    }
    true
}

} // verus!
