use crate::domain::money::{lemma_i64_sum_within_limit, within_total_limit};
use crate::domain::sums::{lemma_sum_by_take_next, sum_by};
use crate::domain::value_objects::debt_radar::DebtViewModel;
use vstd::prelude::*;

verus! {

/// What a row of the debt ledger says: `who` owes `amount` minor units more
/// than before, or, where `amount` is negative, has paid that much back.
pub struct DebtEntry {
    pub id: int,
    pub amount: int,
    pub category: Seq<char>,
    pub description: Seq<char>,
    pub who: Seq<char>,
    pub date: Seq<char>,
}

/// What a debt row says before the storage has given it an id.
pub struct DebtDraft {
    pub amount: int,
    pub category: Seq<char>,
    pub description: Seq<char>,
    pub who: Seq<char>,
    pub date: Seq<char>,
}

/// What is owed by one counterparty, all rows taken together.
pub struct DebtBalance {
    pub amount: int,
    pub who: Seq<char>,
}

/// A row of the debt ledger as the storage holds it.
#[derive(Debug, Clone)]
pub struct DebtLedger {
    pub id: i32,
    pub amount: i64,
    pub category: String,
    pub description: String,
    pub who: String,
    pub date: String,
}

impl View for DebtLedger {
    type V = DebtEntry;

    open spec fn view(&self) -> DebtEntry {
        DebtEntry {
            id: self.id as int,
            amount: self.amount as int,
            category: self.category@,
            description: self.description@,
            who: self.who@,
            date: self.date@,
        }
    }
}

impl DebtLedger {
    /// The amount of a row.
    pub open spec fn amount_of() -> spec_fn(DebtLedger) -> int {
        |row: DebtLedger| row.amount as int
    }

    /// The counterparty of a row.
    pub open spec fn who_of() -> spec_fn(DebtLedger) -> Seq<char> {
        |row: DebtLedger| row.who@
    }

    /// The sum of the amounts of `rows`, repayments counting as negative.
    pub open spec fn total_of(rows: Seq<DebtLedger>) -> int {
        sum_by(rows, Self::amount_of())
    }

    /// The sum of the amounts of `rows`, repayments counting as negative.
    pub fn sum_of(rows: &Vec<DebtLedger>) -> (total: i128)
        ensures
            total == Self::total_of(rows@),
            within_total_limit(total as int),
    {
        let mut total: i128 = 0;
        let mut i: usize = 0;
        while i < rows.len()
            invariant
                0 <= i <= rows.len(),
                total == Self::total_of(rows@.take(i as int)),
                i * i64::MIN <= total <= i * i64::MAX,
            decreases rows.len() - i,
        {
            proof {
                lemma_sum_by_take_next(rows@, i as int, Self::amount_of());
                lemma_i64_sum_within_limit(i as int, total as int);
            }
            total = total + rows[i].amount as i128;
            i = i + 1;
        }
        proof {
            assert(rows@.take(rows.len() as int) =~= rows@);
            lemma_i64_sum_within_limit(i as int, total as int);
        }
        total
    }

    /// The row alone as a balance: its counterparty and its amount.
    pub fn to_model(&self) -> (model: DebtViewModel)
        ensures
            model@ == (DebtBalance { amount: self.amount as int, who: self.who@ }),
    {
        DebtViewModel { amount: self.amount as i128, who: self.who.clone() }
    }
}

/// A debt row to insert.
#[derive(Debug, Clone)]
pub struct RecordDebtLedgerDto {
    pub amount: i64,
    pub category: String,
    pub description: String,
    pub who: String,
    pub date: String,
}

impl View for RecordDebtLedgerDto {
    type V = DebtDraft;

    open spec fn view(&self) -> DebtDraft {
        DebtDraft {
            amount: self.amount as int,
            category: self.category@,
            description: self.description@,
            who: self.who@,
            date: self.date@,
        }
    }
}

/// A repayment to insert: a debt row with a negated amount.
#[derive(Debug, Clone)]
pub struct PaidDebtLedgerDto {
    pub amount: i64,
    pub category: String,
    pub description: String,
    pub who: String,
    pub date: String,
}

impl View for PaidDebtLedgerDto {
    type V = DebtDraft;

    open spec fn view(&self) -> DebtDraft {
        DebtDraft {
            amount: self.amount as int,
            category: self.category@,
            description: self.description@,
            who: self.who@,
            date: self.date@,
        }
    }
}

} // verus!
