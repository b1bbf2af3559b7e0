use crate::domain::money::{lemma_i64_sum_within_limit, within_total_limit};
use crate::domain::sums::{lemma_sum_by_take_next, sum_by};
use crate::domain::value_objects::tax_simulator::TaxDeductionsListModel;
use vstd::prelude::*;

verus! {

/// What a tax deduction says: `amount` minor units off the tax of any year.
pub struct TaxDeduction {
    pub id: int,
    pub title: Seq<char>,
    pub amount: int,
}

/// What a tax deduction says before the storage has given it an id.
pub struct TaxDeductionDraft {
    pub title: Seq<char>,
    pub amount: int,
}

/// A tax deduction as the storage holds it.
#[derive(Debug, Clone)]
pub struct TaxDeductionsList {
    pub id: i32,
    pub title: String,
    pub amount: i64,
}

impl View for TaxDeductionsList {
    type V = TaxDeduction;

    open spec fn view(&self) -> TaxDeduction {
        TaxDeduction { id: self.id as int, title: self.title@, amount: self.amount as int }
    }
}

impl TaxDeductionsList {
    /// The amount of a deduction.
    pub open spec fn amount_of() -> spec_fn(TaxDeductionsList) -> int {
        |row: TaxDeductionsList| row.amount as int
    }

    /// The sum of the amounts of `rows`.
    pub open spec fn total_of(rows: Seq<TaxDeductionsList>) -> int {
        sum_by(rows, Self::amount_of())
    }

    /// The sum of the amounts of `rows`.
    pub fn sum_of(rows: &Vec<TaxDeductionsList>) -> (total: i128)
        ensures
            total == Self::total_of(rows@),
            within_total_limit(total as int),
    {
        let mut total: i128 = 0;
        let mut i: usize = 0;
        while i < rows.len()
            invariant
                0 <= i <= rows.len(),
                total == Self::total_of(rows@.take(i as int)),
                i * i64::MIN <= total <= i * i64::MAX,
            decreases rows.len() - i,
        {
            proof {
                lemma_sum_by_take_next(rows@, i as int, Self::amount_of());
                lemma_i64_sum_within_limit(i as int, total as int);
            }
            total = total + rows[i].amount as i128;
            i = i + 1;
        }
        proof {
            assert(rows@.take(rows.len() as int) =~= rows@);
            lemma_i64_sum_within_limit(i as int, total as int);
        }
        total
    }

    /// The deduction as the list of deductions shows it: every field
    /// unchanged.
    pub fn to_model(&self) -> (model: TaxDeductionsListModel)
        ensures
            model@ == self@,
    {
        TaxDeductionsListModel { id: self.id, title: self.title.clone(), amount: self.amount }
    }
}

/// A tax deduction to insert.
#[derive(Debug, Clone)]
pub struct AddTaxDeductionsListDto {
    pub title: String,
    pub amount: i64,
}

impl View for AddTaxDeductionsListDto {
    type V = TaxDeductionDraft;

    open spec fn view(&self) -> TaxDeductionDraft {
        TaxDeductionDraft { title: self.title@, amount: self.amount as int }
    }
}

/// The id of a tax deduction to delete.
#[derive(Debug, Clone)]
pub struct RemoveTaxDeductionsListDto {
    pub id: i32,
}

} // verus!
