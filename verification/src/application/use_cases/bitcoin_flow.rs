use crate::domain::entities::bitcoin_ledger::{
    BitcoinBuyLedger, BitcoinSellLedger, BitcoinTradeDraft, BitcoinTradeListing, BuyBitcoinDto,
    SellBitcoinDto,
};
use crate::domain::error::LedgerError;
use crate::domain::repositories::bitcoin_flow::BitcoinFlowRepository;
use crate::domain::value_objects::bitcoin_flow::{
    BuyBitcoinModel, SellBitcoinModel, ViewBitcoinLedgerModel,
};
use std::sync::Arc;
use vstd::prelude::*;

verus! {

/// The purchases as a listing shows them: one model for each row, in the
/// order of the rows, every field unchanged, marked "Buy".
pub fn purchase_listings(rows: &Vec<BitcoinBuyLedger>) -> (listings: Vec<ViewBitcoinLedgerModel>)
    ensures
        listings.len() == rows.len(),
        forall|i: int|
            0 <= i < rows.len() ==> (#[trigger] listings[i])@ == (BitcoinTradeListing {
                trade: rows[i]@,
                operation: "Buy"@,
            }),
{
    let mut listings: Vec<ViewBitcoinLedgerModel> = Vec::new();
    let mut i: usize = 0;
    while i < rows.len()
        invariant
            0 <= i <= rows.len(),
            listings.len() == i,
            forall|k: int|
                0 <= k < i ==> (#[trigger] listings[k])@ == (BitcoinTradeListing {
                    trade: rows[k]@,
                    operation: "Buy"@,
                }),
        decreases rows.len() - i,
    {
        listings.push(rows[i].to_model());
        i = i + 1;
    }
    listings
}

/// The sales as a listing shows them: one model for each row, in the order
/// of the rows, every field unchanged, marked "Sell".
pub fn sale_listings(rows: &Vec<BitcoinSellLedger>) -> (listings: Vec<ViewBitcoinLedgerModel>)
    ensures
        listings.len() == rows.len(),
        forall|i: int|
            0 <= i < rows.len() ==> (#[trigger] listings[i])@ == (BitcoinTradeListing {
                trade: rows[i]@,
                operation: "Sell"@,
            }),
{
    let mut listings: Vec<ViewBitcoinLedgerModel> = Vec::new();
    let mut i: usize = 0;
    while i < rows.len()
        invariant
            0 <= i <= rows.len(),
            listings.len() == i,
            forall|k: int|
                0 <= k < i ==> (#[trigger] listings[k])@ == (BitcoinTradeListing {
                    trade: rows[k]@,
                    operation: "Sell"@,
                }),
        decreases rows.len() - i,
    {
        listings.push(rows[i].to_model());
        i = i + 1;
    }
    listings
}

/// What `view_all_buy` makes of an answer of the storage: the listings of
/// the rows, marked "Buy", where it gave rows, and its failure unchanged
/// where it failed.
pub open spec fn view_all_buy_of(
    answer: Result<Vec<BitcoinBuyLedger>, LedgerError>,
    result: Result<Vec<ViewBitcoinLedgerModel>, LedgerError>,
) -> bool {
    match answer {
        Ok(rows) => {
            &&& result matches Ok(listings)
            &&& listings.len() == rows.len()
            &&& forall|i: int|
                0 <= i < rows.len() ==> (#[trigger] listings[i])@ == (BitcoinTradeListing {
                    trade: rows[i]@,
                    operation: "Buy"@,
                })
        },
        Err(error) => result == Err::<Vec<ViewBitcoinLedgerModel>, LedgerError>(error),
    }
}

/// What `view_all_sell` makes of an answer of the storage: the listings of
/// the rows, marked "Sell", where it gave rows, and its failure unchanged
/// where it failed.
pub open spec fn view_all_sell_of(
    answer: Result<Vec<BitcoinSellLedger>, LedgerError>,
    result: Result<Vec<ViewBitcoinLedgerModel>, LedgerError>,
) -> bool {
    match answer {
        Ok(rows) => {
            &&& result matches Ok(listings)
            &&& listings.len() == rows.len()
            &&& forall|i: int|
                0 <= i < rows.len() ==> (#[trigger] listings[i])@ == (BitcoinTradeListing {
                    trade: rows[i]@,
                    operation: "Sell"@,
                })
        },
        Err(error) => result == Err::<Vec<ViewBitcoinLedgerModel>, LedgerError>(error),
    }
}

/// The record of bitcoin trades.
pub struct BitcoinFlowUseCase<R: BitcoinFlowRepository> {
    bitcoin_flow_repository: Arc<R>,
}

impl<R: BitcoinFlowRepository> BitcoinFlowUseCase<R> {
    /// The storage that holds the trades.
    pub closed spec fn repository(&self) -> Arc<R> {
        self.bitcoin_flow_repository
    }

    /// `dto` is the purchase that `record_buy` hands to the storage for
    /// `model`, and `result` an answer of the storage to it.
    pub open spec fn records_buy(
        &self,
        model: BuyBitcoinModel,
        dto: BuyBitcoinDto,
        result: Result<i32, LedgerError>,
    ) -> bool {
        &&& dto@ == (BitcoinTradeDraft {
            amount: model.amount as int,
            price: model.price as int,
            cost: model.cost as int,
            date: model.date@,
        })
        &&& call_ensures(R::record_buy, (&*self.repository(), dto), result)
    }

    /// `dto` is the sale that `record_sell` hands to the storage for
    /// `model`, and `result` an answer of the storage to it.
    pub open spec fn records_sell(
        &self,
        model: SellBitcoinModel,
        dto: SellBitcoinDto,
        result: Result<i32, LedgerError>,
    ) -> bool {
        &&& dto@ == (BitcoinTradeDraft {
            amount: model.amount as int,
            price: model.price as int,
            cost: model.cost as int,
            date: model.date@,
        })
        &&& call_ensures(R::record_sell, (&*self.repository(), dto), result)
    }

    /// The record of trades over `bitcoin_flow_repository`.
    pub fn new(bitcoin_flow_repository: Arc<R>) -> (use_case: Self)
        ensures
            use_case.repository() == bitcoin_flow_repository,
    {
        Self { bitcoin_flow_repository }
    }

    /// Has the storage insert the purchase, and gives the id that the
    /// storage gave. A failure of the storage is handed on unchanged.
    pub fn record_buy(&self, buy_bitcoin_model: BuyBitcoinModel) -> (result: Result<
        i32,
        LedgerError,
    >)
        ensures
            exists|dto: BuyBitcoinDto| #[trigger] self.records_buy(buy_bitcoin_model, dto, result),
    {
        let dto = buy_bitcoin_model.to_dto();
        let ghost handed = dto;
        let result = self.bitcoin_flow_repository.record_buy(dto);
        assert(self.records_buy(buy_bitcoin_model, handed, result));
        result
    }

    /// Has the storage insert the sale, and gives the id that the storage
    /// gave. A failure of the storage is handed on unchanged.
    pub fn record_sell(&self, sell_bitcoin_model: SellBitcoinModel) -> (result: Result<
        i32,
        LedgerError,
    >)
        ensures
            exists|dto: SellBitcoinDto| #[trigger]
                self.records_sell(sell_bitcoin_model, dto, result),
    {
        let dto = sell_bitcoin_model.to_dto();
        let ghost handed = dto;
        let result = self.bitcoin_flow_repository.record_sell(dto);
        assert(self.records_sell(sell_bitcoin_model, handed, result));
        result
    }

    /// The purchases that the storage holds, as a listing shows them. A
    /// failure of the storage is handed on unchanged.
    pub fn view_all_buy(&self) -> (result: Result<Vec<ViewBitcoinLedgerModel>, LedgerError>)
        ensures
            exists|answer: Result<Vec<BitcoinBuyLedger>, LedgerError>| #[trigger]
                call_ensures(R::view_all_buy, (&*self.repository(),), answer) && view_all_buy_of(
                    answer,
                    result,
                ),
    {
        let answer = self.bitcoin_flow_repository.view_all_buy();
        assert(call_ensures(R::view_all_buy, (&*self.repository(),), answer));
        match answer {
            Ok(rows) => Ok(purchase_listings(&rows)),
            Err(error) => Err(error),
        }
    }

    /// The sales that the storage holds, as a listing shows them. A failure
    /// of the storage is handed on unchanged.
    pub fn view_all_sell(&self) -> (result: Result<Vec<ViewBitcoinLedgerModel>, LedgerError>)
        ensures
            exists|answer: Result<Vec<BitcoinSellLedger>, LedgerError>| #[trigger]
                call_ensures(R::view_all_sell, (&*self.repository(),), answer) && view_all_sell_of(
                    answer,
                    result,
                ),
    {
        let answer = self.bitcoin_flow_repository.view_all_sell();
        assert(call_ensures(R::view_all_sell, (&*self.repository(),), answer));
        match answer {
            Ok(rows) => Ok(sale_listings(&rows)),
            Err(error) => Err(error),
        }
    }
}

} // verus!
