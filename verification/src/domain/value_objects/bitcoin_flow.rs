use crate::domain::entities::bitcoin_ledger::{
    BitcoinTrade, BitcoinTradeDraft, BitcoinTradeListing, BuyBitcoinDto, SellBitcoinDto,
};
use vstd::prelude::*;

verus! {

/// A purchase to record: `amount` satoshis at `price` minor units the coin,
/// for `cost` minor units in all.
#[derive(Debug, Clone)]
pub struct BuyBitcoinModel {
    pub amount: i64,
    pub price: i64,
    pub cost: i64,
    pub date: String,
}

impl BuyBitcoinModel {
    /// The purchase to insert: every field unchanged.
    pub fn to_dto(&self) -> (dto: BuyBitcoinDto)
        ensures
            dto@ == (BitcoinTradeDraft {
                amount: self.amount as int,
                price: self.price as int,
                cost: self.cost as int,
                date: self.date@,
            }),
    {
        BuyBitcoinDto {
            amount: self.amount,
            price: self.price,
            cost: self.cost,
            date: self.date.clone(),
        }
    }
}

/// A sale to record.
#[derive(Debug, Clone)]
pub struct SellBitcoinModel {
    pub amount: i64,
    pub price: i64,
    pub cost: i64,
    pub date: String,
}

impl SellBitcoinModel {
    /// The sale to insert: every field unchanged.
    pub fn to_dto(&self) -> (dto: SellBitcoinDto)
        ensures
            dto@ == (BitcoinTradeDraft {
                amount: self.amount as int,
                price: self.price as int,
                cost: self.cost as int,
                date: self.date@,
            }),
    {
        SellBitcoinDto {
            amount: self.amount,
            price: self.price,
            cost: self.cost,
            date: self.date.clone(),
        }
    }
}

/// A trade as a listing shows it; `operation` is "Buy" or "Sell".
#[derive(Debug, Clone)]
pub struct ViewBitcoinLedgerModel {
    pub id: i32,
    pub amount: i64,
    pub price: i64,
    pub cost: i64,
    pub operation: String,
    pub date: String,
}

impl View for ViewBitcoinLedgerModel {
    type V = BitcoinTradeListing;

    open spec fn view(&self) -> BitcoinTradeListing {
        BitcoinTradeListing {
            trade: BitcoinTrade {
                id: self.id as int,
                amount: self.amount as int,
                price: self.price as int,
                cost: self.cost as int,
                date: self.date@,
            },
            operation: self.operation@,
        }
    }
}

} // verus!
