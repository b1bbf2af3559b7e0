use crate::domain::entities::bitcoin_ledger::{
    BitcoinBuyLedger, BitcoinSellLedger, BuyBitcoinDto, SellBitcoinDto,
};
use crate::domain::error::LedgerError;
use vstd::prelude::*;

verus! {

/// The storage of bitcoin trades. An insert gives the id of the new row.
pub trait BitcoinFlowRepository {
    fn record_buy(&self, buy_bitcoin_dto: BuyBitcoinDto) -> Result<i32, LedgerError>;

    fn record_sell(&self, sell_bitcoin_dto: SellBitcoinDto) -> Result<i32, LedgerError>;

    fn view_all_buy(&self) -> Result<Vec<BitcoinBuyLedger>, LedgerError>;

    fn view_all_sell(&self) -> Result<Vec<BitcoinSellLedger>, LedgerError>;
}

} // verus!
