use crate::domain::money::{lemma_i64_sum_within_limit, within_total_limit};
use crate::domain::sums::{lemma_sum_by_take_next, sum_by};
use crate::domain::value_objects::spending_scanner::SpendingScannerModel;
use vstd::prelude::*;

verus! {

/// What a row of the ledger says: a cash movement of `amount` minor units.
pub struct LedgerEntry {
    pub id: int,
    pub amount: int,
    pub category: Seq<char>,
    pub description: Seq<char>,
    pub date: Seq<char>,
}

/// What a ledger row says before the storage has given it an id.
pub struct LedgerDraft {
    pub amount: int,
    pub category: Seq<char>,
    pub description: Seq<char>,
    pub date: Seq<char>,
}

/// A row of the ledger as the storage holds it.
#[derive(Debug, Clone)]
pub struct MyLedger {
    pub id: i64,
    pub amount: i64,
    pub category: String,
    pub description: String,
    pub date: String,
}

impl View for MyLedger {
    type V = LedgerEntry;

    open spec fn view(&self) -> LedgerEntry {
        LedgerEntry {
            id: self.id as int,
            amount: self.amount as int,
            category: self.category@,
            description: self.description@,
            date: self.date@,
        }
    }
}

impl MyLedger {
    /// The amount of a row.
    pub open spec fn amount_of() -> spec_fn(MyLedger) -> int {
        |row: MyLedger| row.amount as int
    }

    /// The category of a row.
    pub open spec fn category_of() -> spec_fn(MyLedger) -> Seq<char> {
        |row: MyLedger| row.category@
    }

    /// The sum of the amounts of `rows`.
    pub open spec fn total_of(rows: Seq<MyLedger>) -> int {
        sum_by(rows, Self::amount_of())
    }

    /// The sum of the amounts of `rows`.
    pub fn sum_of(rows: &Vec<MyLedger>) -> (total: i128)
        ensures
            total == Self::total_of(rows@),
            within_total_limit(total as int),
    {
        let mut total: i128 = 0;
        let mut i: usize = 0;
        while i < rows.len()
            invariant
                0 <= i <= rows.len(),
                total == Self::total_of(rows@.take(i as int)),
                i * i64::MIN <= total <= i * i64::MAX,
            decreases rows.len() - i,
        {
            proof {
                lemma_sum_by_take_next(rows@, i as int, Self::amount_of());
                lemma_i64_sum_within_limit(i as int, total as int);
            }
            total = total + rows[i].amount as i128;
            i = i + 1;
        }
        proof {
            assert(rows@.take(rows.len() as int) =~= rows@);
            lemma_i64_sum_within_limit(i as int, total as int);
        }
        total
    }

    /// The row as the spending views show it: every field unchanged.
    pub fn to_spending_scanner_model(&self) -> (model: SpendingScannerModel)
        ensures
            model@ == self@,
    {
        SpendingScannerModel {
            id: self.id,
            amount: self.amount,
            category: self.category.clone(),
            description: self.description.clone(),
            date: self.date.clone(),
        }
    }
}

/// A ledger row to insert.
#[derive(Debug, Clone)]
pub struct RecordMyLedgerDto {
    pub amount: i64,
    pub category: String,
    pub description: String,
    pub date: String,
}

impl View for RecordMyLedgerDto {
    type V = LedgerDraft;

    open spec fn view(&self) -> LedgerDraft {
        LedgerDraft {
            amount: self.amount as int,
            category: self.category@,
            description: self.description@,
            date: self.date@,
        }
    }
}

} // verus!
