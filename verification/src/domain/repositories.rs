pub mod bitcoin_flow;
pub mod cash_flow;
pub mod debt_radar;
pub mod spending_scanner;
pub mod tax_simulator;
