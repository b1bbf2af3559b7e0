pub mod bitcoin_ledger;
pub mod debt_ledger;
pub mod monthly_spending;
pub mod my_ledger;
pub mod tax_deductions_list;
