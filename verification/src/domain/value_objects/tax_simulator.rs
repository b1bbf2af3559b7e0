use crate::domain::entities::tax_deductions_list::{
    AddTaxDeductionsListDto, TaxDeduction, TaxDeductionDraft,
};
use vstd::prelude::*;

verus! {

/// The year whose tax is asked for.
#[derive(Clone, Debug)]
pub struct TaxSimulateRequestModel {
    pub year: i32,
}

/// The tax to pay, in minor units. It is never negative, and wide enough
/// for every scale and every set of rows.
#[derive(Clone, Debug)]
pub struct TaxSimulateResult {
    pub must_pay: u128,
}

/// A tax deduction to add.
#[derive(Clone, Debug)]
pub struct AddTaxDeductionsListModel {
    pub title: String,
    pub amount: i64,
}

impl AddTaxDeductionsListModel {
    /// The deduction to insert: every field unchanged.
    pub fn to_dto(&self) -> (dto: AddTaxDeductionsListDto)
        ensures
            dto@ == (TaxDeductionDraft { title: self.title@, amount: self.amount as int }),
    {
        AddTaxDeductionsListDto { title: self.title.clone(), amount: self.amount }
    }
}

/// The id of a tax deduction to remove.
#[derive(Clone, Debug)]
pub struct RemoveTaxDeductionsListModel {
    pub id: i32,
}

/// A tax deduction as the list shows it.
#[derive(Clone, Debug)]
pub struct TaxDeductionsListModel {
    pub id: i32,
    pub title: String,
    pub amount: i64,
}

impl View for TaxDeductionsListModel {
    type V = TaxDeduction;

    open spec fn view(&self) -> TaxDeduction {
        TaxDeduction { id: self.id as int, title: self.title@, amount: self.amount as int }
    }
}

} // verus!
