use crate::domain::entities::my_ledger::RecordMyLedgerDto;
use crate::domain::error::LedgerError;
use vstd::prelude::*;

verus! {

/// The storage of cash movements. An insert gives the id of the new row.
pub trait CashFlowRepository {
    fn record(&self, record_my_ledger_dto: RecordMyLedgerDto) -> Result<i32, LedgerError>;
}

} // verus!
