use crate::domain::entities::my_ledger::{LedgerDraft, RecordMyLedgerDto};
use crate::domain::error::LedgerError;
use crate::domain::repositories::cash_flow::CashFlowRepository;
use crate::domain::text::uppercase;
use crate::domain::value_objects::cash_flow::{RecordCashFlowModel, RecordCashFlowWithDateModel};
use std::sync::Arc;
use vstd::prelude::*;

verus! {

/// The record of cash movements.
pub struct CashFlowUseCase<R: CashFlowRepository> {
    cash_flow_repository: Arc<R>,
}

impl<R: CashFlowRepository> CashFlowUseCase<R> {
    /// The storage that holds the cash movements.
    pub closed spec fn repository(&self) -> Arc<R> {
        self.cash_flow_repository
    }

    /// `dto` is the row that `record` hands to the storage for `model`,
    /// under whatever date: the category in upper case, the rest unchanged;
    /// and `result` is an answer of the storage to it.
    pub open spec fn records(
        &self,
        model: RecordCashFlowModel,
        dto: RecordMyLedgerDto,
        result: Result<i32, LedgerError>,
    ) -> bool {
        &&& dto@.amount == model.amount
        &&& dto@.category == uppercase(model.category@)
        &&& dto@.description == model.description@
        &&& call_ensures(R::record, (&*self.repository(), dto), result)
    }

    /// `dto` is the row that `record_with_date` hands to the storage for
    /// `model`: the category in upper case, the rest unchanged; and `result`
    /// is an answer of the storage to it.
    pub open spec fn records_with_date(
        &self,
        model: RecordCashFlowWithDateModel,
        dto: RecordMyLedgerDto,
        result: Result<i32, LedgerError>,
    ) -> bool {
        &&& dto@ == (LedgerDraft {
            amount: model.amount as int,
            category: uppercase(model.category@),
            description: model.description@,
            date: model.date@,
        })
        &&& call_ensures(R::record, (&*self.repository(), dto), result)
    }

    /// The record of cash movements over `cash_flow_repository`.
    pub fn new(cash_flow_repository: Arc<R>) -> (use_case: Self)
        ensures
            use_case.repository() == cash_flow_repository,
    {
        Self { cash_flow_repository }
    }

    /// Has the storage insert the movement under today's date, its category
    /// in upper case, and gives the id that the storage gave. A failure of
    /// the storage is handed on unchanged.
    pub fn record(&self, record_cash_flow_model: RecordCashFlowModel) -> (result: Result<
        i32,
        LedgerError,
    >)
        ensures
            exists|dto: RecordMyLedgerDto| #[trigger]
                self.records(record_cash_flow_model, dto, result),
    {
        let dto = record_cash_flow_model.to_dto();
        let ghost handed = dto;
        let result = self.cash_flow_repository.record(dto);
        assert(self.records(record_cash_flow_model, handed, result));
        result
    }

    /// Has the storage insert the movement under its own date, its category
    /// in upper case, and gives the id that the storage gave. A failure of
    /// the storage is handed on unchanged.
    pub fn record_with_date(
        &self,
        record_cash_flow_with_date_model: RecordCashFlowWithDateModel,
    ) -> (result: Result<i32, LedgerError>)
        ensures
            exists|dto: RecordMyLedgerDto| #[trigger]
                self.records_with_date(record_cash_flow_with_date_model, dto, result),
    {
        let dto = record_cash_flow_with_date_model.to_dto();
        let ghost handed = dto;
        let result = self.cash_flow_repository.record(dto);
        assert(self.records_with_date(record_cash_flow_with_date_model, handed, result));
        result
    }
}

} // verus!
