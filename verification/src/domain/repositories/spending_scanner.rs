use crate::domain::entities::monthly_spending::{AddMonthlySpendingDto, MonthlySpending};
use crate::domain::entities::my_ledger::MyLedger;
use crate::domain::error::LedgerError;
use vstd::prelude::*;

verus! {

/// The storage of ledger rows, read by range of dates, and of the reminders
/// of monthly bills. Ledger rows come latest first. `custom` takes both
/// bounds as included.
pub trait SpendingScannerRepository {
    fn today(&self) -> Result<Vec<MyLedger>, LedgerError>;

    fn this_month(&self) -> Result<Vec<MyLedger>, LedgerError>;

    fn this_year(&self) -> Result<Vec<MyLedger>, LedgerError>;

    fn lifetime(&self) -> Result<Vec<MyLedger>, LedgerError>;

    fn custom(&self, start: String, end: String) -> Result<Vec<MyLedger>, LedgerError>;

    fn view_all_monthly_spending(&self) -> Result<Vec<MonthlySpending>, LedgerError>;

    fn add_monthly_spending(&self, add_monthly_spending_model: AddMonthlySpendingDto) -> Result<
        i32,
        LedgerError,
    >;

    fn remove_monthly_spending(&self, id: i32) -> Result<(), LedgerError>;
}

} // verus!
