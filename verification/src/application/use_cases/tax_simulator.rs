use crate::domain::entities::my_ledger::MyLedger;
use crate::domain::entities::tax_deductions_list::{
    AddTaxDeductionsListDto, TaxDeductionDraft, TaxDeductionsList,
};
use crate::domain::error::LedgerError;
use crate::domain::repositories::tax_simulator::TaxSimulatorRepository;
use crate::domain::standard_scale::{lemma_standard_scale_valid, standard_brackets, standard_scale};
use crate::domain::tax_brackets::{
    is_valid_scale, raw_tax_of, settle, tax_due, valid_scale, TaxBracket,
};
use crate::domain::value_objects::tax_simulator::{
    AddTaxDeductionsListModel, RemoveTaxDeductionsListModel, TaxDeductionsListModel,
    TaxSimulateRequestModel, TaxSimulateResult,
};
use std::sync::Arc;
use vstd::prelude::*;

verus! {

/// The deductions as the list shows them: one model for each row, in the
/// order of the rows, every field unchanged.
pub fn deduction_models(rows: &Vec<TaxDeductionsList>) -> (models: Vec<TaxDeductionsListModel>)
    ensures
        models.len() == rows.len(),
        forall|i: int| 0 <= i < rows.len() ==> (#[trigger] models[i])@ == rows[i]@,
{
    let mut models: Vec<TaxDeductionsListModel> = Vec::new();
    let mut i: usize = 0;
    while i < rows.len()
        invariant
            0 <= i <= rows.len(),
            models.len() == i,
            forall|k: int| 0 <= k < i ==> (#[trigger] models[k])@ == rows[k]@,
        decreases rows.len() - i,
    {
        models.push(rows[i].to_model());
        i = i + 1;
    }
    models
}

/// What `view_all_tax_deductions_list` makes of an answer of the storage:
/// the models of the rows where it gave rows, and its failure unchanged
/// where it failed.
pub open spec fn deductions_list_of(
    answer: Result<Vec<TaxDeductionsList>, LedgerError>,
    result: Result<Vec<TaxDeductionsListModel>, LedgerError>,
) -> bool {
    match answer {
        Ok(rows) => {
            &&& result matches Ok(models)
            &&& models.len() == rows.len()
            &&& forall|i: int| 0 <= i < rows.len() ==> (#[trigger] models[i])@ == rows[i]@
        },
        Err(error) => result == Err::<Vec<TaxDeductionsListModel>, LedgerError>(error),
    }
}

/// The tax simulation: the income of a year is set against a progressive
/// scale, and the deductions are taken off the result.
pub struct TaxSimulatorUseCase<R: TaxSimulatorRepository> {
    tax_simulator_repository: Arc<R>,
    scale: Vec<TaxBracket>,
}

impl<R: TaxSimulatorRepository> TaxSimulatorUseCase<R> {
    #[verifier::type_invariant]
    spec fn scale_is_valid(&self) -> bool {
        valid_scale(self.scale@)
    }

    /// The storage that the simulation reads.
    pub closed spec fn repository(&self) -> Arc<R> {
        self.tax_simulator_repository
    }

    /// The scale that the simulation applies.
    pub closed spec fn scale(&self) -> Seq<TaxBracket> {
        self.scale@
    }

    /// `dto` is the deduction that `add_tax_deduction_list` hands to the
    /// storage for `model`, and `result` an answer of the storage to it.
    pub open spec fn adds(
        &self,
        model: AddTaxDeductionsListModel,
        dto: AddTaxDeductionsListDto,
        result: Result<i32, LedgerError>,
    ) -> bool {
        &&& dto@ == (TaxDeductionDraft { title: model.title@, amount: model.amount as int })
        &&& call_ensures(R::add_tax_deduction_list, (&*self.repository(), dto), result)
    }

    /// `result` is what `simulate` gives for `year` where the storage answers
    /// `incomes` to the query for the income rows of that year and, if that
    /// query gave rows, `deductions` to the query for the deductions. A
    /// failure of the first query is the result, unchanged, and the second
    /// query is then not made; else a failure of the second is the result,
    /// unchanged; else the result is the tax due on the rows of both.
    pub open spec fn simulates(
        &self,
        year: i32,
        incomes: Result<Vec<MyLedger>, LedgerError>,
        deductions: Result<Vec<TaxDeductionsList>, LedgerError>,
        result: Result<TaxSimulateResult, LedgerError>,
    ) -> bool {
        &&& call_ensures(R::view_all_income_by_year, (&*self.repository(), year), incomes)
        &&& match incomes {
            Err(error) => result == Err::<TaxSimulateResult, LedgerError>(error),
            Ok(income_rows) => {
                &&& call_ensures(
                    R::view_all_tax_deductions_list,
                    (&*self.repository(),),
                    deductions,
                )
                &&& match deductions {
                    Err(error) => result == Err::<TaxSimulateResult, LedgerError>(error),
                    Ok(deduction_rows) => {
                        &&& result matches Ok(tax)
                        &&& tax.must_pay == tax_due(
                            self.scale(),
                            MyLedger::total_of(income_rows@),
                            TaxDeductionsList::total_of(deduction_rows@),
                        )
                    },
                }
            },
        }
    }

    /// A simulation over `tax_simulator_repository` with the standard scale.
    pub fn new(tax_simulator_repository: Arc<R>) -> (use_case: Self)
        ensures
            use_case.repository() == tax_simulator_repository,
            use_case.scale() == standard_brackets(),
    {
        let scale = standard_scale();
        proof {
            lemma_standard_scale_valid();
        }
        Self { tax_simulator_repository, scale }
    }

    /// A simulation over `tax_simulator_repository` with a scale of the
    /// caller's. A scale that is not valid is refused as invalid input.
    pub fn with_scale(tax_simulator_repository: Arc<R>, scale: Vec<TaxBracket>) -> (made: Result<
        Self,
        LedgerError,
    >)
        ensures
            valid_scale(scale@) ==> (made matches Ok(use_case) && use_case.repository()
                == tax_simulator_repository && use_case.scale() == scale@),
            !valid_scale(scale@) ==> made matches Err(LedgerError::InvalidInput(_)),
    {
        if is_valid_scale(&scale) {
            Ok(Self { tax_simulator_repository, scale })
        } else {
            Err(LedgerError::InvalidInput("the tax scale is not valid".to_string()))
        }
    }

    /// The tax deductions that the storage holds, as the list shows them. A
    /// failure of the storage is handed on unchanged.
    pub fn view_all_tax_deductions_list(&self) -> (result: Result<
        Vec<TaxDeductionsListModel>,
        LedgerError,
    >)
        ensures
            exists|answer: Result<Vec<TaxDeductionsList>, LedgerError>| #[trigger]
                call_ensures(R::view_all_tax_deductions_list, (&*self.repository(),), answer)
                    && deductions_list_of(answer, result),
    {
        let answer = self.tax_simulator_repository.view_all_tax_deductions_list();
        assert(call_ensures(R::view_all_tax_deductions_list, (&*self.repository(),), answer));
        match answer {
            Ok(rows) => Ok(deduction_models(&rows)),
            Err(error) => Err(error),
        }
    }

    /// Has the storage insert the deduction, and gives the id that the
    /// storage gave. A failure of the storage is handed on unchanged.
    pub fn add_tax_deduction_list(
        &self,
        add_tax_deduction_list_model: AddTaxDeductionsListModel,
    ) -> (result: Result<i32, LedgerError>)
        ensures
            exists|dto: AddTaxDeductionsListDto| #[trigger]
                self.adds(add_tax_deduction_list_model, dto, result),
    {
        let dto = add_tax_deduction_list_model.to_dto();
        let ghost handed = dto;
        let result = self.tax_simulator_repository.add_tax_deduction_list(dto);
        assert(self.adds(add_tax_deduction_list_model, handed, result));
        result
    }

    /// Has the storage delete the deduction of that id. A failure of the
    /// storage is handed on unchanged.
    pub fn remove_tax_deduction_list(
        &self,
        remove_tax_deduction_list_model: RemoveTaxDeductionsListModel,
    ) -> (result: Result<(), LedgerError>)
        ensures
            call_ensures(
                R::remove_tax_deduction_list,
                (&*self.repository(), remove_tax_deduction_list_model.id),
                result,
            ),
    {
        self.tax_simulator_repository.remove_tax_deduction_list(remove_tax_deduction_list_model.id)
    }

    /// The tax to pay on `incomes` after `deductions`: the amounts of the
    /// income rows are summed, the scale gives the raw tax on that total, the
    /// sum of the deductions is taken off, and a negative result counts as 0.
    /// The deductions are those of no year in particular.
    pub fn assess(&self, incomes: &Vec<MyLedger>, deductions: &Vec<TaxDeductionsList>) -> (result:
        TaxSimulateResult)
        ensures
            result.must_pay == tax_due(
                self.scale(),
                MyLedger::total_of(incomes@),
                TaxDeductionsList::total_of(deductions@),
            ),
            result.must_pay >= 0,
    {
        proof {
            use_type_invariant(self);
        }
        let total_income = MyLedger::sum_of(incomes);
        let total_deductions = TaxDeductionsList::sum_of(deductions);
        let raw = raw_tax_of(&self.scale, total_income);
        TaxSimulateResult { must_pay: settle(raw, total_deductions) }
    }

    /// The tax to pay for the year of the request: `assess` on the income
    /// rows that the storage holds for that year and on all the deductions
    /// that it holds. A failure of the storage is handed on unchanged, and
    /// then nothing is computed.
    pub fn simulate(&self, tax_simulate_request_model: TaxSimulateRequestModel) -> (result: Result<
        TaxSimulateResult,
        LedgerError,
    >)
        ensures
            exists|
                incomes: Result<Vec<MyLedger>, LedgerError>,
                deductions: Result<Vec<TaxDeductionsList>, LedgerError>,
            | #[trigger] self.simulates(tax_simulate_request_model.year, incomes, deductions, result),
            result matches Ok(tax) ==> tax.must_pay >= 0,
    {
        let year = tax_simulate_request_model.year;
        let income_answer = self.tax_simulator_repository.view_all_income_by_year(year);
        let ghost incomes_given = income_answer;
        let incomes = match income_answer {
            Ok(rows) => rows,
            Err(error) => {
                assert(self.simulates(year, incomes_given, Err(error), Err(error)));
                return Err(error);
            },
        };
        let deduction_answer = self.tax_simulator_repository.view_all_tax_deductions_list();
        let ghost deductions_given = deduction_answer;
        let deductions = match deduction_answer {
            Ok(rows) => rows,
            Err(error) => {
                assert(self.simulates(year, incomes_given, deductions_given, Err(error)));
                return Err(error);
            },
        };
        let result = Ok(self.assess(&incomes, &deductions));
        assert(self.simulates(year, incomes_given, deductions_given, result));
        result
    }
}

} // verus!
