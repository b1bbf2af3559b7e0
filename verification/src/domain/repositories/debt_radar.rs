use crate::domain::entities::debt_ledger::{DebtLedger, PaidDebtLedgerDto, RecordDebtLedgerDto};
use crate::domain::error::LedgerError;
use vstd::prelude::*;

verus! {

/// The storage of debts. An insert gives the id of the new row;
/// `view_by_that_bro` gives the rows of one counterparty.
pub trait DebtRadarRepository {
    fn record(&self, record_debt_ledger_dto: RecordDebtLedgerDto) -> Result<i32, LedgerError>;

    fn view_all(&self) -> Result<Vec<DebtLedger>, LedgerError>;

    fn view_by_that_bro(&self, who: &str) -> Result<Vec<DebtLedger>, LedgerError>;

    fn record_paid_debt(&self, paid_debt_ledger_dto: PaidDebtLedgerDto) -> Result<
        i32,
        LedgerError,
    >;
}

} // verus!
