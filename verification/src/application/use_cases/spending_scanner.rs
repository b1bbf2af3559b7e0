use crate::domain::entities::monthly_spending::{
    AddMonthlySpendingDto, MonthlySpending, MonthlySpendingDraft,
};
use crate::domain::entities::my_ledger::MyLedger;
use crate::domain::error::LedgerError;
use crate::domain::money::lemma_i64_sum_within_limit;
use crate::domain::repositories::spending_scanner::SpendingScannerRepository;
use crate::domain::tally::{
    label_total, lemma_absent_label_totals_zero, lemma_label_total_bounds, lemma_totals_any_order,
    lemma_totals_take_next, totals_by_label, Tally,
};
use crate::domain::value_objects::spending_scanner::{
    AddMonthlySpendingModel, MonthlySpendingModel, Range, RemoveMonthlySpendingModel,
    SpendingScannerFilter, SpendingScannerModel,
};
use std::sync::Arc;
use vstd::prelude::*;

verus! {

/// The spending of `rows` by category: the categories are those that occur
/// in the rows, told apart by their exact text, and under each stands the
/// sum of the amounts of its rows.
pub open spec fn spending_by_category(rows: Seq<MyLedger>) -> Map<Seq<char>, int> {
    totals_by_label(rows, MyLedger::category_of(), MyLedger::amount_of())
}

/// The spending by category does not depend on the order of the rows: two
/// sequences of the same rows give the same categories and the same totals.
pub proof fn lemma_spending_any_order(rows: Seq<MyLedger>, reordered: Seq<MyLedger>)
    requires
        rows.to_multiset() == reordered.to_multiset(),
    ensures
        spending_by_category(rows) == spending_by_category(reordered),
{
    lemma_totals_any_order(rows, reordered, MyLedger::category_of(), MyLedger::amount_of());
}

/// The rows as the spending views show them: one model for each row, in the
/// order of the rows, every field unchanged.
pub fn scanner_models(rows: &Vec<MyLedger>) -> (models: Vec<SpendingScannerModel>)
    ensures
        models.len() == rows.len(),
        forall|i: int| 0 <= i < rows.len() ==> (#[trigger] models[i])@ == rows[i]@,
{
    let mut models: Vec<SpendingScannerModel> = Vec::new();
    let mut i: usize = 0;
    while i < rows.len()
        invariant
            0 <= i <= rows.len(),
            models.len() == i,
            forall|k: int| 0 <= k < i ==> (#[trigger] models[k])@ == rows[k]@,
        decreases rows.len() - i,
    {
        models.push(rows[i].to_spending_scanner_model());
        i = i + 1;
    }
    models
}

/// The spending of `rows` by category. A category without a row has no line
/// in the result.
pub fn category_totals(rows: &Vec<MyLedger>) -> (totals: Tally)
    ensures
        totals@ == spending_by_category(rows@),
{
    let mut totals = Tally::new();
    let mut i: usize = 0;
    while i < rows.len()
        invariant
            0 <= i <= rows.len(),
            totals@ == spending_by_category(rows@.take(i as int)),
        decreases rows.len() - i,
    {
        proof {
            let seen = rows@.take(i as int);
            let category = rows[i as int].category@;
            lemma_totals_take_next(
                rows@,
                i as int,
                MyLedger::category_of(),
                MyLedger::amount_of(),
            );
            lemma_label_total_bounds(
                seen,
                MyLedger::category_of(),
                MyLedger::amount_of(),
                category,
                i64::MIN as int,
                i64::MAX as int,
            );
            lemma_i64_sum_within_limit(
                i as int,
                label_total(seen, MyLedger::category_of(), MyLedger::amount_of(), category),
            );
            if !totals@.contains_key(category) {
                lemma_absent_label_totals_zero(
                    seen,
                    MyLedger::category_of(),
                    MyLedger::amount_of(),
                    category,
                );
            }
        }
        totals.add(rows[i].category.as_str(), rows[i].amount);
        i = i + 1;
    }
    assert(rows@.take(rows.len() as int) =~= rows@);
    totals
}

/// The reminders as the list shows them: one model for each row, in the
/// order of the rows, every field unchanged.
pub fn monthly_spending_models(rows: &Vec<MonthlySpending>) -> (models: Vec<MonthlySpendingModel>)
    ensures
        models.len() == rows.len(),
        forall|i: int| 0 <= i < rows.len() ==> (#[trigger] models[i])@ == rows[i]@,
{
    let mut models: Vec<MonthlySpendingModel> = Vec::new();
    let mut i: usize = 0;
    while i < rows.len()
        invariant
            0 <= i <= rows.len(),
            models.len() == i,
            forall|k: int| 0 <= k < i ==> (#[trigger] models[k])@ == rows[k]@,
        decreases rows.len() - i,
    {
        models.push(rows[i].to_model());
        i = i + 1;
    }
    models
}

/// What `scan` makes of an answer of the storage: the models of the rows
/// where it gave rows, and its failure unchanged where it failed.
pub open spec fn scan_of(
    answer: Result<Vec<MyLedger>, LedgerError>,
    result: Result<Vec<SpendingScannerModel>, LedgerError>,
) -> bool {
    match answer {
        Ok(rows) => {
            &&& result matches Ok(models)
            &&& models.len() == rows.len()
            &&& forall|i: int| 0 <= i < rows.len() ==> (#[trigger] models[i])@ == rows[i]@
        },
        Err(error) => result == Err::<Vec<SpendingScannerModel>, LedgerError>(error),
    }
}

/// What `visualize` makes of an answer of the storage: the spending of the
/// rows by category where it gave rows, and its failure unchanged where it
/// failed.
pub open spec fn visualize_of(
    answer: Result<Vec<MyLedger>, LedgerError>,
    result: Result<Tally, LedgerError>,
) -> bool {
    match answer {
        Ok(rows) => result matches Ok(totals) && totals@ == spending_by_category(rows@),
        Err(error) => result == Err::<Tally, LedgerError>(error),
    }
}

/// What `view_all_monthly_spending_list` makes of an answer of the storage:
/// the models of the rows where it gave rows, and its failure unchanged
/// where it failed.
pub open spec fn monthly_spending_list_of(
    answer: Result<Vec<MonthlySpending>, LedgerError>,
    result: Result<Vec<MonthlySpendingModel>, LedgerError>,
) -> bool {
    match answer {
        Ok(rows) => {
            &&& result matches Ok(models)
            &&& models.len() == rows.len()
            &&& forall|i: int| 0 <= i < rows.len() ==> (#[trigger] models[i])@ == rows[i]@
        },
        Err(error) => result == Err::<Vec<MonthlySpendingModel>, LedgerError>(error),
    }
}

/// The views of what was spent over a range of dates, and the list of
/// monthly bills.
pub struct SpendingScannerUseCase<R: SpendingScannerRepository> {
    spending_scanner_repository: Arc<R>,
}

impl<R: SpendingScannerRepository> SpendingScannerUseCase<R> {
    /// The storage that the views read.
    pub closed spec fn repository(&self) -> Arc<R> {
        self.spending_scanner_repository
    }

    /// The views over `spending_scanner_repository`.
    pub fn new(spending_scanner_repository: Arc<R>) -> (use_case: Self)
        ensures
            use_case.repository() == spending_scanner_repository,
    {
        Self { spending_scanner_repository }
    }

    /// `answer` is what the storage gave for `range`: an answer of the one
    /// query that belongs to the range, made on the storage of this use
    /// case, and for a custom range with its bounds as they are.
    pub open spec fn answers(
        &self,
        range: Range,
        answer: Result<Vec<MyLedger>, LedgerError>,
    ) -> bool {
        match range {
            Range::Today => call_ensures(R::today, (&*self.repository(),), answer),
            Range::ThisMonth => call_ensures(R::this_month, (&*self.repository(),), answer),
            Range::ThisYear => call_ensures(R::this_year, (&*self.repository(),), answer),
            Range::Lifetime => call_ensures(R::lifetime, (&*self.repository(),), answer),
            Range::Custom { start, end } => call_ensures(
                R::custom,
                (&*self.repository(), start, end),
                answer,
            ),
        }
    }

    /// `dto` is the reminder that `add_monthly_spending` hands to the
    /// storage for `model`, and `result` an answer of the storage to it.
    pub open spec fn adds(
        &self,
        model: AddMonthlySpendingModel,
        dto: AddMonthlySpendingDto,
        result: Result<i32, LedgerError>,
    ) -> bool {
        &&& dto@ == (MonthlySpendingDraft {
            title: model.title@,
            amount: model.amount as int,
            due_date: model.due_date@,
        })
        &&& call_ensures(R::add_monthly_spending, (&*self.repository(), dto), result)
    }

    /// The ledger rows of `range`, as the storage gives them: each range is
    /// one query of the storage, and the bounds of a custom range are handed
    /// on as they are. Nothing is filtered here.
    pub fn fetch(&self, range: Range) -> (answer: Result<Vec<MyLedger>, LedgerError>)
        ensures
            self.answers(range, answer),
    {
        match range {
            Range::Today => self.spending_scanner_repository.today(),
            Range::ThisMonth => self.spending_scanner_repository.this_month(),
            Range::ThisYear => self.spending_scanner_repository.this_year(),
            Range::Lifetime => self.spending_scanner_repository.lifetime(),
            Range::Custom { start, end } => self.spending_scanner_repository.custom(start, end),
        }
    }

    /// The ledger rows of the filter's range, in the order of the storage:
    /// `scanner_models` of what `fetch` gives. A failure of the storage is
    /// handed on unchanged.
    pub fn scan(&self, spending_scanner_filer: SpendingScannerFilter) -> (result: Result<
        Vec<SpendingScannerModel>,
        LedgerError,
    >)
        ensures
            exists|answer: Result<Vec<MyLedger>, LedgerError>| #[trigger]
                self.answers(spending_scanner_filer.filter, answer) && scan_of(answer, result),
    {
        match self.fetch(spending_scanner_filer.filter) {
            Ok(rows) => Ok(scanner_models(&rows)),
            Err(error) => Err(error),
        }
    }

    /// What was spent in the filter's range, by category: `category_totals`
    /// of what `fetch` gives. A failure of the storage is handed on
    /// unchanged.
    pub fn visualize(&self, spending_scanner_filer: SpendingScannerFilter) -> (result: Result<
        Tally,
        LedgerError,
    >)
        ensures
            exists|answer: Result<Vec<MyLedger>, LedgerError>| #[trigger]
                self.answers(spending_scanner_filer.filter, answer) && visualize_of(
                    answer,
                    result,
                ),
    {
        match self.fetch(spending_scanner_filer.filter) {
            Ok(rows) => Ok(category_totals(&rows)),
            Err(error) => Err(error),
        }
    }

    /// The reminders of monthly bills that the storage holds, as the list
    /// shows them. A failure of the storage is handed on unchanged.
    pub fn view_all_monthly_spending_list(&self) -> (result: Result<
        Vec<MonthlySpendingModel>,
        LedgerError,
    >)
        ensures
            exists|answer: Result<Vec<MonthlySpending>, LedgerError>| #[trigger]
                call_ensures(R::view_all_monthly_spending, (&*self.repository(),), answer)
                    && monthly_spending_list_of(answer, result),
    {
        let answer = self.spending_scanner_repository.view_all_monthly_spending();
        assert(call_ensures(R::view_all_monthly_spending, (&*self.repository(),), answer));
        match answer {
            Ok(rows) => Ok(monthly_spending_models(&rows)),
            Err(error) => Err(error),
        }
    }

    /// Has the storage insert the reminder, and gives the id that the storage
    /// gave. A failure of the storage is handed on unchanged.
    pub fn add_monthly_spending(&self, add_monthly_spending_model: AddMonthlySpendingModel) -> (result:
        Result<i32, LedgerError>)
        ensures
            exists|dto: AddMonthlySpendingDto| #[trigger]
                self.adds(add_monthly_spending_model, dto, result),
    {
        let dto = add_monthly_spending_model.to_dto();
        let ghost handed = dto;
        let result = self.spending_scanner_repository.add_monthly_spending(dto);
        assert(self.adds(add_monthly_spending_model, handed, result));
        result
    }

    /// Has the storage delete the reminder of that id. A failure of the
    /// storage is handed on unchanged.
    pub fn remove_monthly_spending(
        &self,
        remove_monthly_spending_model: RemoveMonthlySpendingModel,
    ) -> (result: Result<(), LedgerError>)
        ensures
            call_ensures(
                R::remove_monthly_spending,
                (&*self.repository(), remove_monthly_spending_model.id),
                result,
            ),
    {
        self.spending_scanner_repository.remove_monthly_spending(remove_monthly_spending_model.id)
    }
}

} // verus!
