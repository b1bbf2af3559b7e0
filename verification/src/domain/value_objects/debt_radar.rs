use crate::domain::calendar::today_utc;
use crate::domain::entities::debt_ledger::{
    DebtBalance, DebtDraft, PaidDebtLedgerDto, RecordDebtLedgerDto,
};
use vstd::prelude::*;

verus! {

/// The counterparty whose balance is asked for.
#[derive(Debug, Clone)]
pub struct WhoOwesMeModel {
    pub who: String,
}

/// A debt to record under today's date.
#[derive(Debug, Clone)]
pub struct RecordDebtModel {
    pub amount: i64,
    pub category: String,
    pub description: String,
    pub who: String,
}

impl RecordDebtModel {
    /// The row to insert, dated `date`: every field unchanged.
    pub fn to_dto_on(&self, date: String) -> (dto: RecordDebtLedgerDto)
        ensures
            dto@ == (DebtDraft {
                amount: self.amount as int,
                category: self.category@,
                description: self.description@,
                who: self.who@,
                date: date@,
            }),
    {
        RecordDebtLedgerDto {
            amount: self.amount,
            category: self.category.clone(),
            description: self.description.clone(),
            who: self.who.clone(),
            date,
        }
    }

    /// The row to insert, dated today by the clock in UTC: every field
    /// unchanged.
    pub fn to_dto(&self) -> (dto: RecordDebtLedgerDto)
        ensures
            dto@.amount == self.amount,
            dto@.category == self.category@,
            dto@.description == self.description@,
            dto@.who == self.who@,
    {
        self.to_dto_on(today_utc())
    }
}

/// A repayment: `who` has paid `amount` minor units back on `date`.
#[derive(Debug, Clone)]
pub struct PaidDebtModel {
    pub amount: i64,
    pub who: String,
    pub date: String,
}

impl PaidDebtModel {
    /// Whether the negated amount is an amount: every amount but the least
    /// `i64`.
    pub open spec fn can_be_negated(&self) -> bool {
        self.amount > i64::MIN
    }

    /// The row to insert: the amount negated, category and description both
    /// "Paid Debt".
    pub fn to_dto(&self) -> (dto: PaidDebtLedgerDto)
        requires
            self.can_be_negated(),
        ensures
            dto@ == (DebtDraft {
                amount: -(self.amount as int),
                category: "Paid Debt"@,
                description: "Paid Debt"@,
                who: self.who@,
                date: self.date@,
            }),
    {
        PaidDebtLedgerDto {
            amount: -self.amount,
            category: "Paid Debt".to_string(),
            description: "Paid Debt".to_string(),
            who: self.who.clone(),
            date: self.date.clone(),
        }
    }
}

/// A debt to record under a date of the caller's.
#[derive(Debug, Clone)]
pub struct RecordDebtWithDateModel {
    pub amount: i64,
    pub category: String,
    pub description: String,
    pub who: String,
    pub date: String,
}

impl RecordDebtWithDateModel {
    /// The row to insert: every field unchanged.
    pub fn to_dto(&self) -> (dto: RecordDebtLedgerDto)
        ensures
            dto@ == (DebtDraft {
                amount: self.amount as int,
                category: self.category@,
                description: self.description@,
                who: self.who@,
                date: self.date@,
            }),
    {
        RecordDebtLedgerDto {
            amount: self.amount,
            category: self.category.clone(),
            description: self.description.clone(),
            who: self.who.clone(),
            date: self.date.clone(),
        }
    }
}

/// What one counterparty owes, all of its rows taken together, in minor
/// units.
#[derive(Debug, Clone)]
pub struct DebtViewModel {
    pub amount: i128,
    pub who: String,
}

impl View for DebtViewModel {
    type V = DebtBalance;

    open spec fn view(&self) -> DebtBalance {
        DebtBalance { amount: self.amount as int, who: self.who@ }
    }
}

} // verus!
