use crate::domain::calendar::today_utc;
use crate::domain::entities::my_ledger::{LedgerDraft, RecordMyLedgerDto};
use crate::domain::text::{to_uppercase, uppercase};
use vstd::prelude::*;

verus! {

/// A cash movement to record under today's date.
#[derive(Debug, Clone)]
pub struct RecordCashFlowModel {
    pub amount: i64,
    pub category: String,
    pub description: String,
}

impl RecordCashFlowModel {
    /// The row to insert, dated `date`: the category in upper case, the rest
    /// unchanged.
    pub fn to_dto_on(&self, date: String) -> (dto: RecordMyLedgerDto)
        ensures
            dto@ == (LedgerDraft {
                amount: self.amount as int,
                category: uppercase(self.category@),
                description: self.description@,
                date: date@,
            }),
    {
        RecordMyLedgerDto {
            amount: self.amount,
            category: to_uppercase(&self.category),
            description: self.description.clone(),
            date,
        }
    }

    /// The row to insert, dated today by the clock in UTC: the category in
    /// upper case, the rest unchanged.
    pub fn to_dto(&self) -> (dto: RecordMyLedgerDto)
        ensures
            dto@.amount == self.amount,
            dto@.category == uppercase(self.category@),
            dto@.description == self.description@,
    {
        self.to_dto_on(today_utc())
    }
}

/// A cash movement to record under a date of the caller's.
#[derive(Debug, Clone)]
pub struct RecordCashFlowWithDateModel {
    pub amount: i64,
    pub category: String,
    pub description: String,
    pub date: String,
}

impl RecordCashFlowWithDateModel {
    /// The row to insert: the category in upper case, the rest unchanged.
    pub fn to_dto(&self) -> (dto: RecordMyLedgerDto)
        ensures
            dto@ == (LedgerDraft {
                amount: self.amount as int,
                category: uppercase(self.category@),
                description: self.description@,
                date: self.date@,
            }),
    {
        RecordMyLedgerDto {
            amount: self.amount,
            category: to_uppercase(&self.category),
            description: self.description.clone(),
            date: self.date.clone(),
        }
    }
}

} // verus!
