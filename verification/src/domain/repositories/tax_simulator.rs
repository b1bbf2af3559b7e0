use crate::domain::entities::my_ledger::MyLedger;
use crate::domain::entities::tax_deductions_list::{AddTaxDeductionsListDto, TaxDeductionsList};
use crate::domain::error::LedgerError;
use vstd::prelude::*;

verus! {

/// The storage that the tax simulation reads: the ledger rows of one year
/// that count as income, and the tax deductions, which belong to no year.
pub trait TaxSimulatorRepository {
    fn view_all_income_by_year(&self, year: i32) -> Result<Vec<MyLedger>, LedgerError>;

    fn view_all_tax_deductions_list(&self) -> Result<Vec<TaxDeductionsList>, LedgerError>;

    fn add_tax_deduction_list(&self, add_tax_deduction_list_dto: AddTaxDeductionsListDto) -> Result<
        i32,
        LedgerError,
    >;

    fn remove_tax_deduction_list(&self, id: i32) -> Result<(), LedgerError>;
}

} // verus!
