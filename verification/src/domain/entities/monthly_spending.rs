use crate::domain::value_objects::spending_scanner::MonthlySpendingModel;
use vstd::prelude::*;

verus! {

/// What a reminder of a monthly bill says: `amount` minor units are due on
/// the day `due_date` of each month.
pub struct MonthlySpendingItem {
    pub id: int,
    pub title: Seq<char>,
    pub amount: int,
    pub due_date: Seq<char>,
}

/// What a reminder says before the storage has given it an id.
pub struct MonthlySpendingDraft {
    pub title: Seq<char>,
    pub amount: int,
    pub due_date: Seq<char>,
}

/// A reminder of a monthly bill as the storage holds it.
#[derive(Debug, Clone)]
pub struct MonthlySpending {
    pub id: i32,
    pub title: String,
    pub amount: i64,
    pub due_date: String,
}

impl View for MonthlySpending {
    type V = MonthlySpendingItem;

    open spec fn view(&self) -> MonthlySpendingItem {
        MonthlySpendingItem {
            id: self.id as int,
            title: self.title@,
            amount: self.amount as int,
            due_date: self.due_date@,
        }
    }
}

impl MonthlySpending {
    /// The reminder as the list of monthly bills shows it: every field
    /// unchanged.
    pub fn to_model(&self) -> (model: MonthlySpendingModel)
        ensures
            model@ == self@,
    {
        MonthlySpendingModel {
            id: self.id,
            title: self.title.clone(),
            amount: self.amount,
            due_date: self.due_date.clone(),
        }
    }
}

/// A reminder to insert.
#[derive(Debug, Clone)]
pub struct AddMonthlySpendingDto {
    pub title: String,
    pub amount: i64,
    pub due_date: String,
}

impl View for AddMonthlySpendingDto {
    type V = MonthlySpendingDraft;

    open spec fn view(&self) -> MonthlySpendingDraft {
        MonthlySpendingDraft {
            title: self.title@,
            amount: self.amount as int,
            due_date: self.due_date@,
        }
    }
}

} // verus!
