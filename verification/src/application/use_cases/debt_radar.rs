use crate::domain::entities::debt_ledger::{
    DebtBalance, DebtDraft, DebtLedger, PaidDebtLedgerDto, RecordDebtLedgerDto,
};
use crate::domain::error::LedgerError;
use crate::domain::money::lemma_i64_sum_within_limit;
use crate::domain::repositories::debt_radar::DebtRadarRepository;
use crate::domain::sums::lemma_sum_by_any_order;
use crate::domain::tally::{
    label_total, labels_of, lemma_absent_label_totals_zero, lemma_label_total_bounds,
    lemma_totals_any_order, lemma_totals_take_next, totals_by_label, Tally,
};
use crate::domain::value_objects::debt_radar::{DebtViewModel, PaidDebtModel, RecordDebtModel};
use std::sync::Arc;
use vstd::prelude::*;

verus! {

/// What each counterparty owes: the counterparties are those that occur in
/// `rows`, told apart by their exact text, and each owes the sum of the
/// amounts of its rows, repayments counting as negative.
pub open spec fn owed_by_counterparty(rows: Seq<DebtLedger>) -> Map<Seq<char>, int> {
    totals_by_label(rows, DebtLedger::who_of(), DebtLedger::amount_of())
}

/// `balances` lists `owed`: each balance is a counterparty of `owed` with
/// what it owes, no counterparty has two balances, and none is left out.
pub open spec fn lists_balances(balances: Seq<DebtViewModel>, owed: Map<Seq<char>, int>) -> bool {
    &&& forall|i: int|
        0 <= i < balances.len() ==> owed.contains_key((#[trigger] balances[i])@.who)
            && owed[balances[i]@.who] == balances[i]@.amount
    &&& forall|i: int, j: int|
        0 <= i < j < balances.len() ==> (#[trigger] balances[i])@.who
            != (#[trigger] balances[j])@.who
    &&& forall|who: Seq<char>| #[trigger]
        owed.contains_key(who) ==> exists|i: int|
            0 <= i < balances.len() && (#[trigger] balances[i])@.who == who
}

/// What a counterparty owes does not depend on the order in which its rows
/// were recorded: two sequences of the same rows give the same balance.
pub proof fn lemma_balance_any_order(rows: Seq<DebtLedger>, reordered: Seq<DebtLedger>)
    requires
        rows.to_multiset() == reordered.to_multiset(),
    ensures
        DebtLedger::total_of(rows) == DebtLedger::total_of(reordered),
{
    lemma_sum_by_any_order(rows, reordered, DebtLedger::amount_of());
}

/// What each counterparty owes does not depend on the order of the rows
/// either.
pub proof fn lemma_owed_any_order(rows: Seq<DebtLedger>, reordered: Seq<DebtLedger>)
    requires
        rows.to_multiset() == reordered.to_multiset(),
    ensures
        owed_by_counterparty(rows) == owed_by_counterparty(reordered),
{
    lemma_totals_any_order(rows, reordered, DebtLedger::who_of(), DebtLedger::amount_of());
}

/// What each counterparty owes, one balance for each counterparty of `rows`,
/// in no order that a caller may count on.
pub fn balances(rows: &Vec<DebtLedger>) -> (listed: Vec<DebtViewModel>)
    ensures
        lists_balances(listed@, owed_by_counterparty(rows@)),
{
    let mut totals = Tally::new();
    let mut i: usize = 0;
    while i < rows.len()
        invariant
            0 <= i <= rows.len(),
            totals@ == owed_by_counterparty(rows@.take(i as int)),
        decreases rows.len() - i,
    {
        proof {
            let seen = rows@.take(i as int);
            let who = rows[i as int].who@;
            lemma_totals_take_next(rows@, i as int, DebtLedger::who_of(), DebtLedger::amount_of());
            lemma_label_total_bounds(
                seen,
                DebtLedger::who_of(),
                DebtLedger::amount_of(),
                who,
                i64::MIN as int,
                i64::MAX as int,
            );
            lemma_i64_sum_within_limit(
                i as int,
                label_total(seen, DebtLedger::who_of(), DebtLedger::amount_of(), who),
            );
            if !totals@.contains_key(who) {
                lemma_absent_label_totals_zero(
                    seen,
                    DebtLedger::who_of(),
                    DebtLedger::amount_of(),
                    who,
                );
            }
        }
        totals.add(rows[i].who.as_str(), rows[i].amount);
        i = i + 1;
    }
    assert(rows@.take(rows.len() as int) =~= rows@);
    let entries = totals.entries();
    let ghost labels = labels_of(entries@);
    let mut balances: Vec<DebtViewModel> = Vec::new();
    let mut k: usize = 0;
    while k < entries.len()
        invariant
            0 <= k <= entries.len(),
            balances.len() == k,
            forall|j: int|
                0 <= j < k ==> (#[trigger] balances[j])@ == (DebtBalance {
                    amount: entries[j].total as int,
                    who: entries[j].label@,
                }),
        decreases entries.len() - k,
    {
        balances.push(DebtViewModel { amount: entries[k].total, who: entries[k].label.clone() });
        k = k + 1;
    }
    proof {
        let owed = owed_by_counterparty(rows@);
        assert forall|j: int| 0 <= j < balances.len() implies owed.contains_key(
            (#[trigger] balances[j])@.who,
        ) && owed[balances[j]@.who] == balances[j]@.amount by {
            assert(labels[j] == entries[j].label@);
        }
        assert forall|j: int, l: int| 0 <= j < l < balances.len() implies (#[trigger] balances[j])@.who
            != (#[trigger] balances[l])@.who by {
            assert(labels[j] == entries[j].label@);
            assert(labels[l] == entries[l].label@);
        }
        assert forall|who: Seq<char>| #[trigger] owed.contains_key(who) implies exists|j: int|
            0 <= j < balances.len() && (#[trigger] balances[j])@.who == who by {
            let j = labels.index_of(who);
            assert(balances[j]@.who == who);
        }
    }
    balances
}

/// What `who` owes by `rows`, which are taken to be the rows of `who`: the
/// sum of their amounts, repayments counting as negative, and 0 for no row.
pub fn balance_of(who: &str, rows: &Vec<DebtLedger>) -> (balance: DebtViewModel)
    ensures
        balance@ == (DebtBalance { amount: DebtLedger::total_of(rows@), who: who@ }),
{
    DebtViewModel { amount: DebtLedger::sum_of(rows), who: who.to_string() }
}

/// What `who` owes, given what the storage answered for `who`: the balance
/// by the rows where it gave rows, and no balance where it failed, whatever
/// the failure was.
pub fn balance_if_fetched(who: &str, fetched: Result<Vec<DebtLedger>, LedgerError>) -> (balance:
    Option<DebtViewModel>)
    ensures
        match fetched {
            Ok(rows) => balance matches Some(found) && found@ == (DebtBalance {
                amount: DebtLedger::total_of(rows@),
                who: who@,
            }),
            Err(_) => balance is None,
        },
{
    match fetched {
        Ok(rows) => Some(balance_of(who, &rows)),
        Err(_) => None,
    }
}

/// What `view_all` makes of an answer of the storage: the balances of the
/// rows where it gave rows, and its failure unchanged where it failed.
pub open spec fn view_all_of(
    answer: Result<Vec<DebtLedger>, LedgerError>,
    result: Result<Vec<DebtViewModel>, LedgerError>,
) -> bool {
    match answer {
        Ok(rows) => result matches Ok(listed) && lists_balances(
            listed@,
            owed_by_counterparty(rows@),
        ),
        Err(error) => result == Err::<Vec<DebtViewModel>, LedgerError>(error),
    }
}

/// What `view_by_that_bro` makes of an answer of the storage for `who`: the
/// balance by the rows where it gave rows, and no balance, without a
/// failure, where it failed.
pub open spec fn view_by_that_bro_of(
    who: &str,
    answer: Result<Vec<DebtLedger>, LedgerError>,
    result: Result<Option<DebtViewModel>, LedgerError>,
) -> bool {
    match answer {
        Ok(rows) => result matches Ok(Some(balance)) && balance@ == (DebtBalance {
            amount: DebtLedger::total_of(rows@),
            who: who@,
        }),
        Err(_) => result matches Ok(None),
    }
}

/// The record of who owes what.
pub struct DebtRadarUseCase<R: DebtRadarRepository> {
    debt_radar_repository: Arc<R>,
}

impl<R: DebtRadarRepository> DebtRadarUseCase<R> {
    /// The storage that holds the debts.
    pub closed spec fn repository(&self) -> Arc<R> {
        self.debt_radar_repository
    }

    /// `dto` is the row that `record` hands to the storage for `model`,
    /// under whatever date, and `result` an answer of the storage to it.
    pub open spec fn records(
        &self,
        model: RecordDebtModel,
        dto: RecordDebtLedgerDto,
        result: Result<i32, LedgerError>,
    ) -> bool {
        &&& dto@.amount == model.amount
        &&& dto@.category == model.category@
        &&& dto@.description == model.description@
        &&& dto@.who == model.who@
        &&& call_ensures(R::record, (&*self.repository(), dto), result)
    }

    /// `dto` is the row that `record_paid_debt` hands to the storage for
    /// `model`, and `result` an answer of the storage to it.
    pub open spec fn records_paid(
        &self,
        model: PaidDebtModel,
        dto: PaidDebtLedgerDto,
        result: Result<i32, LedgerError>,
    ) -> bool {
        &&& dto@ == (DebtDraft {
            amount: -(model.amount as int),
            category: "Paid Debt"@,
            description: "Paid Debt"@,
            who: model.who@,
            date: model.date@,
        })
        &&& call_ensures(R::record_paid_debt, (&*self.repository(), dto), result)
    }

    /// The record of debts over `debt_radar_repository`.
    pub fn new(debt_radar_repository: Arc<R>) -> (use_case: Self)
        ensures
            use_case.repository() == debt_radar_repository,
    {
        Self { debt_radar_repository }
    }

    /// Has the storage insert the debt under today's date, and gives the id
    /// that the storage gave. A failure of the storage is handed on
    /// unchanged.
    pub fn record(&self, record_debt_radar_model: RecordDebtModel) -> (result: Result<
        i32,
        LedgerError,
    >)
        ensures
            exists|dto: RecordDebtLedgerDto| #[trigger]
                self.records(record_debt_radar_model, dto, result),
    {
        let dto = record_debt_radar_model.to_dto();
        let ghost handed = dto;
        let result = self.debt_radar_repository.record(dto);
        assert(self.records(record_debt_radar_model, handed, result));
        result
    }

    /// What each counterparty owes: `balances` of all the rows that the
    /// storage holds. A failure of the storage is handed on unchanged.
    pub fn view_all(&self) -> (result: Result<Vec<DebtViewModel>, LedgerError>)
        ensures
            exists|answer: Result<Vec<DebtLedger>, LedgerError>| #[trigger]
                call_ensures(R::view_all, (&*self.repository(),), answer) && view_all_of(
                    answer,
                    result,
                ),
            result matches Ok(balances) ==> forall|i: int, j: int|
                0 <= i < j < balances.len() ==> (#[trigger] balances[i])@.who
                    != (#[trigger] balances[j])@.who,
    {
        let answer = self.debt_radar_repository.view_all();
        assert(call_ensures(R::view_all, (&*self.repository(),), answer));
        match answer {
            Ok(rows) => Ok(balances(&rows)),
            Err(error) => Err(error),
        }
    }

    /// What `who` owes: `balance_if_fetched` of what the storage answers for
    /// `who`. A failure of the storage is not handed on: it gives no
    /// balance, as if nothing were known of `who`.
    pub fn view_by_that_bro(&self, who: &str) -> (result: Result<Option<DebtViewModel>, LedgerError>)
        ensures
            exists|answer: Result<Vec<DebtLedger>, LedgerError>| #[trigger]
                call_ensures(R::view_by_that_bro, (&*self.repository(), who), answer)
                    && view_by_that_bro_of(who, answer, result),
            result is Ok,
            result matches Ok(Some(balance)) ==> balance@.who == who@,
    {
        let answer = self.debt_radar_repository.view_by_that_bro(who);
        assert(call_ensures(R::view_by_that_bro, (&*self.repository(), who), answer));
        Ok(balance_if_fetched(who, answer))
    }

    /// Has the storage insert the repayment as a debt row of the negated
    /// amount, and gives the id that the storage gave. An amount that cannot
    /// be negated is refused as invalid input, and the storage is not
    /// called. A failure of the storage is handed on unchanged.
    pub fn record_paid_debt(&self, paid_debt_model: PaidDebtModel) -> (result: Result<
        i32,
        LedgerError,
    >)
        ensures
            !paid_debt_model.can_be_negated() ==> result matches Err(LedgerError::InvalidInput(_)),
            paid_debt_model.can_be_negated() ==> exists|dto: PaidDebtLedgerDto| #[trigger]
                self.records_paid(paid_debt_model, dto, result),
    {
        if paid_debt_model.amount == i64::MIN {
            return Err(
                LedgerError::InvalidInput("the amount paid is out of range".to_string()),
            );
        }
        let dto = paid_debt_model.to_dto();
        let ghost handed = dto;
        let result = self.debt_radar_repository.record_paid_debt(dto);
        assert(self.records_paid(paid_debt_model, handed, result));
        result
    }
}

} // verus!
