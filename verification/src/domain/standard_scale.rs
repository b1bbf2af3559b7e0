use crate::domain::tax_brackets::{
    is_bracket_of, lemma_bracket_by_bounds, raw_tax, valid_scale, TaxBracket,
};
use vstd::prelude::*;

verus! {

/// The scale that the simulator uses unless it is given another, in minor
/// units: nothing up to 150,000; then 5, 10, 15, 20, 25, 30 and 35 percent of
/// what exceeds 150,000, 300,000, 500,000, 750,000, 1,000,000, 2,000,000 and
/// 5,000,000, each on top of its base tax.
pub open spec fn standard_brackets() -> Seq<TaxBracket> {
    seq![
        TaxBracket { lower: 0, upper: Some(15_000_000), rate_percent: 0, base_tax: 0 },
        TaxBracket { lower: 15_000_000, upper: Some(30_000_000), rate_percent: 5, base_tax: 0 },
        TaxBracket {
            lower: 30_000_000,
            upper: Some(50_000_000),
            rate_percent: 10,
            base_tax: 2_750_000,
        },
        TaxBracket {
            lower: 50_000_000,
            upper: Some(75_000_000),
            rate_percent: 15,
            base_tax: 2_750_000,
        },
        TaxBracket {
            lower: 75_000_000,
            upper: Some(100_000_000),
            rate_percent: 20,
            base_tax: 6_500_000,
        },
        TaxBracket {
            lower: 100_000_000,
            upper: Some(200_000_000),
            rate_percent: 25,
            base_tax: 11_500_000,
        },
        TaxBracket {
            lower: 200_000_000,
            upper: Some(500_000_000),
            rate_percent: 30,
            base_tax: 36_500_000,
        },
        TaxBracket { lower: 500_000_000, upper: None, rate_percent: 35, base_tax: 126_500_000 },
    ]
}

/// The raw tax of the standard scale, bracket by bracket.
pub open spec fn standard_raw_tax(total: int) -> int {
    if total <= 15_000_000 {
        0
    } else if total <= 30_000_000 {
        (total - 15_000_000) * 5 / 100
    } else if total <= 50_000_000 {
        2_750_000 + (total - 30_000_000) * 10 / 100
    } else if total <= 75_000_000 {
        2_750_000 + (total - 50_000_000) * 15 / 100
    } else if total <= 100_000_000 {
        6_500_000 + (total - 75_000_000) * 20 / 100
    } else if total <= 200_000_000 {
        11_500_000 + (total - 100_000_000) * 25 / 100
    } else if total <= 500_000_000 {
        36_500_000 + (total - 200_000_000) * 30 / 100
    } else {
        126_500_000 + (total - 500_000_000) * 35 / 100
    }
}

/// The pairs of totals between which the standard scale's raw tax falls:
/// the lower one in the bracket that ends at 500,000, the higher one beyond
/// it, and so little beyond that 15 percent of its excess is less than 10
/// percent of the lower one's.
pub open spec fn falls_between(a: int, b: int) -> bool {
    &&& 30_000_000 < a <= 50_000_000
    &&& 50_000_000 < b
    &&& (b - 50_000_000) * 15 / 100 < (a - 30_000_000) * 10 / 100
}

/// The standard scale is a valid scale.
pub proof fn lemma_standard_scale_valid()
    ensures
        valid_scale(standard_brackets()),
{
}

/// Under the standard scale the raw tax of every total is the one that the
/// table of the scale gives, bracket by bracket.
pub proof fn lemma_standard_raw_tax(total: int)
    ensures
        raw_tax(standard_brackets(), total) == standard_raw_tax(total),
{
    let s = standard_brackets();
    lemma_standard_scale_valid();
    let i: int = if total <= 15_000_000 {
        0
    } else if total <= 30_000_000 {
        1
    } else if total <= 50_000_000 {
        2
    } else if total <= 75_000_000 {
        3
    } else if total <= 100_000_000 {
        4
    } else if total <= 200_000_000 {
        5
    } else if total <= 500_000_000 {
        6
    } else {
        7
    };
    lemma_bracket_by_bounds(s, i, total);
}

/// Under the standard scale a higher total is never taxed less than a lower
/// one, except across the boundary at 500,000, where the base tax does not
/// continue the bracket below: the raw tax falls exactly between the pairs
/// of `falls_between`.
pub proof fn lemma_standard_raw_tax_monotonic(a: int, b: int)
    requires
        a <= b,
    ensures
        !falls_between(a, b) ==> raw_tax(standard_brackets(), a) <= raw_tax(
            standard_brackets(),
            b,
        ),
        falls_between(a, b) ==> raw_tax(standard_brackets(), a) > raw_tax(standard_brackets(), b),
{
    lemma_standard_raw_tax(a);
    lemma_standard_raw_tax(b);
}

/// Under the standard scale one more minor unit of income costs at most one
/// more minor unit of tax, and never less tax, wherever the total does not
/// stand on the boundary at 300,000 or at 500,000.
pub proof fn lemma_standard_raw_tax_step(total: int)
    requires
        total != 30_000_000,
        total != 50_000_000,
    ensures
        0 <= raw_tax(standard_brackets(), total + 1) - raw_tax(standard_brackets(), total) <= 1,
{
    lemma_standard_raw_tax(total);
    lemma_standard_raw_tax(total + 1);
}

/// The standard scale.
pub fn standard_scale() -> (scale: Vec<TaxBracket>)
    ensures
        scale@ == standard_brackets(),
{
    let mut scale: Vec<TaxBracket> = Vec::new();
    scale.push(TaxBracket { lower: 0, upper: Some(15_000_000), rate_percent: 0, base_tax: 0 });
    scale.push(
        TaxBracket { lower: 15_000_000, upper: Some(30_000_000), rate_percent: 5, base_tax: 0 },
    );
    scale.push(
        TaxBracket {
            lower: 30_000_000,
            upper: Some(50_000_000),
            rate_percent: 10,
            base_tax: 2_750_000,
        },
    );
    scale.push(
        TaxBracket {
            lower: 50_000_000,
            upper: Some(75_000_000),
            rate_percent: 15,
            base_tax: 2_750_000,
        },
    );
    scale.push(
        TaxBracket {
            lower: 75_000_000,
            upper: Some(100_000_000),
            rate_percent: 20,
            base_tax: 6_500_000,
        },
    );
    scale.push(
        TaxBracket {
            lower: 100_000_000,
            upper: Some(200_000_000),
            rate_percent: 25,
            base_tax: 11_500_000,
        },
    );
    scale.push(
        TaxBracket {
            lower: 200_000_000,
            upper: Some(500_000_000),
            rate_percent: 30,
            base_tax: 36_500_000,
        },
    );
    scale.push(
        TaxBracket { lower: 500_000_000, upper: None, rate_percent: 35, base_tax: 126_500_000 },
    );
    scale
}

} // verus!
