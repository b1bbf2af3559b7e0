use crate::domain::entities::monthly_spending::{
    AddMonthlySpendingDto, MonthlySpendingDraft, MonthlySpendingItem,
};
use crate::domain::entities::my_ledger::LedgerEntry;
use vstd::prelude::*;

verus! {

/// The range of dates that a spending view covers.
#[derive(Debug, Clone)]
pub struct SpendingScannerFilter {
    pub filter: Range,
}

/// A ledger row as the spending views show it.
#[derive(Debug, Clone)]
pub struct SpendingScannerModel {
    pub id: i64,
    pub amount: i64,
    pub category: String,
    pub description: String,
    pub date: String,
}

impl View for SpendingScannerModel {
    type V = LedgerEntry;

    open spec fn view(&self) -> LedgerEntry {
        LedgerEntry {
            id: self.id as int,
            amount: self.amount as int,
            category: self.category@,
            description: self.description@,
            date: self.date@,
        }
    }
}

/// A range of dates: one of the four that the storage knows by name, or the
/// dates from `start` to `end`, both included.
#[derive(Debug, Clone, PartialEq)]
pub enum Range {
    Today,
    ThisMonth,
    ThisYear,
    Lifetime,
    Custom { start: String, end: String },
}

/// A reminder of a monthly bill to add; `due_date` is the day of the month.
#[derive(Debug, Clone)]
pub struct AddMonthlySpendingModel {
    pub title: String,
    pub amount: i64,
    pub due_date: String,
}

impl AddMonthlySpendingModel {
    /// The reminder to insert: every field unchanged.
    pub fn to_dto(&self) -> (dto: AddMonthlySpendingDto)
        ensures
            dto@ == (MonthlySpendingDraft {
                title: self.title@,
                amount: self.amount as int,
                due_date: self.due_date@,
            }),
    {
        AddMonthlySpendingDto {
            title: self.title.clone(),
            amount: self.amount,
            due_date: self.due_date.clone(),
        }
    }
}

/// The id of a reminder to remove.
#[derive(Debug, Clone)]
pub struct RemoveMonthlySpendingModel {
    pub id: i32,
}

/// A reminder of a monthly bill as the list shows it.
#[derive(Debug, Clone)]
pub struct MonthlySpendingModel {
    pub id: i32,
    pub title: String,
    pub amount: i64,
    pub due_date: String,
}

impl View for MonthlySpendingModel {
    type V = MonthlySpendingItem;

    open spec fn view(&self) -> MonthlySpendingItem {
        MonthlySpendingItem {
            id: self.id as int,
            title: self.title@,
            amount: self.amount as int,
            due_date: self.due_date@,
        }
    }
}

} // verus!
