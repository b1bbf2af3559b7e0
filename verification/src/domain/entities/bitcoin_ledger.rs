use crate::domain::value_objects::bitcoin_flow::ViewBitcoinLedgerModel;
use vstd::prelude::*;

verus! {

/// What a row of a bitcoin ledger says: `amount` satoshis were traded at
/// `price` minor units the coin, for `cost` minor units in all.
pub struct BitcoinTrade {
    pub id: int,
    pub amount: int,
    pub price: int,
    pub cost: int,
    pub date: Seq<char>,
}

/// What a trade says before the storage has given it an id.
pub struct BitcoinTradeDraft {
    pub amount: int,
    pub price: int,
    pub cost: int,
    pub date: Seq<char>,
}

/// A trade as a listing shows it: the trade, and whether it bought or sold.
pub struct BitcoinTradeListing {
    pub trade: BitcoinTrade,
    pub operation: Seq<char>,
}

/// A sale as the storage holds it.
#[derive(Debug, Clone)]
pub struct BitcoinSellLedger {
    pub id: i32,
    pub amount: i64,
    pub price: i64,
    pub cost: i64,
    pub date: String,
}

impl View for BitcoinSellLedger {
    type V = BitcoinTrade;

    open spec fn view(&self) -> BitcoinTrade {
        BitcoinTrade {
            id: self.id as int,
            amount: self.amount as int,
            price: self.price as int,
            cost: self.cost as int,
            date: self.date@,
        }
    }
}

impl BitcoinSellLedger {
    /// The sale as a listing shows it: every field unchanged, marked "Sell".
    pub fn to_model(&self) -> (model: ViewBitcoinLedgerModel)
        ensures
            model@ == (BitcoinTradeListing { trade: self@, operation: "Sell"@ }),
    {
        ViewBitcoinLedgerModel {
            id: self.id,
            amount: self.amount,
            price: self.price,
            cost: self.cost,
            operation: "Sell".to_string(),
            date: self.date.clone(),
        }
    }
}

/// A purchase to insert.
#[derive(Debug, Clone)]
pub struct BuyBitcoinDto {
    pub amount: i64,
    pub price: i64,
    pub cost: i64,
    pub date: String,
}

impl View for BuyBitcoinDto {
    type V = BitcoinTradeDraft;

    open spec fn view(&self) -> BitcoinTradeDraft {
        BitcoinTradeDraft {
            amount: self.amount as int,
            price: self.price as int,
            cost: self.cost as int,
            date: self.date@,
        }
    }
}

/// A purchase as the storage holds it.
#[derive(Debug, Clone)]
pub struct BitcoinBuyLedger {
    pub id: i32,
    pub amount: i64,
    pub price: i64,
    pub cost: i64,
    pub date: String,
}

impl View for BitcoinBuyLedger {
    type V = BitcoinTrade;

    open spec fn view(&self) -> BitcoinTrade {
        BitcoinTrade {
            id: self.id as int,
            amount: self.amount as int,
            price: self.price as int,
            cost: self.cost as int,
            date: self.date@,
        }
    }
}

impl BitcoinBuyLedger {
    /// The purchase as a listing shows it: every field unchanged, marked
    /// "Buy".
    pub fn to_model(&self) -> (model: ViewBitcoinLedgerModel)
        ensures
            model@ == (BitcoinTradeListing { trade: self@, operation: "Buy"@ }),
    {
        ViewBitcoinLedgerModel {
            id: self.id,
            amount: self.amount,
            price: self.price,
            cost: self.cost,
            operation: "Buy".to_string(),
            date: self.date.clone(),
        }
    }
}

/// A sale to insert.
#[derive(Debug, Clone)]
pub struct SellBitcoinDto {
    pub amount: i64,
    pub price: i64,
    pub cost: i64,
    pub date: String,
}

impl View for SellBitcoinDto {
    type V = BitcoinTradeDraft;

    open spec fn view(&self) -> BitcoinTradeDraft {
        BitcoinTradeDraft {
            amount: self.amount as int,
            price: self.price as int,
            cost: self.cost as int,
            date: self.date@,
        }
    }
}

} // verus!
