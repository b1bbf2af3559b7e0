use std::cell::RefCell;
use std::sync::Arc;
use your_money_left_the_chat::application::use_cases::bitcoin_flow::{
    purchase_listings, sale_listings, BitcoinFlowUseCase,
};
use your_money_left_the_chat::domain::entities::bitcoin_ledger::{
    BitcoinBuyLedger, BitcoinSellLedger, BuyBitcoinDto, SellBitcoinDto,
};
use your_money_left_the_chat::domain::error::LedgerError;
use your_money_left_the_chat::domain::money::MINOR_PER_UNIT;
use your_money_left_the_chat::domain::repositories::bitcoin_flow::BitcoinFlowRepository;
use your_money_left_the_chat::domain::value_objects::bitcoin_flow::{
    BuyBitcoinModel, SellBitcoinModel,
};

// 0.1 bitcoin, in satoshis.
const TENTH_OF_A_COIN: i64 = 10_000_000;

// A storage that answers with what it was given, and notes what it was
// handed.
struct StubBitcoinFlowRepository {
    purchases: Result<Vec<BitcoinBuyLedger>, LedgerError>,
    sales: Result<Vec<BitcoinSellLedger>, LedgerError>,
    bought: RefCell<Vec<BuyBitcoinDto>>,
    sold: RefCell<Vec<SellBitcoinDto>>,
}

impl StubBitcoinFlowRepository {
    fn with(
        purchases: Result<Vec<BitcoinBuyLedger>, LedgerError>,
        sales: Result<Vec<BitcoinSellLedger>, LedgerError>,
    ) -> Self {
        StubBitcoinFlowRepository {
            purchases,
            sales,
            bought: RefCell::new(Vec::new()),
            sold: RefCell::new(Vec::new()),
        }
    }
}

impl BitcoinFlowRepository for StubBitcoinFlowRepository {
    fn record_buy(&self, buy_bitcoin_dto: BuyBitcoinDto) -> Result<i32, LedgerError> {
        self.bought.borrow_mut().push(buy_bitcoin_dto);
        Ok(1)
    }

    fn record_sell(&self, sell_bitcoin_dto: SellBitcoinDto) -> Result<i32, LedgerError> {
        self.sold.borrow_mut().push(sell_bitcoin_dto);
        Ok(1)
    }

    fn view_all_buy(&self) -> Result<Vec<BitcoinBuyLedger>, LedgerError> {
        self.purchases.clone()
    }

    fn view_all_sell(&self) -> Result<Vec<BitcoinSellLedger>, LedgerError> {
        self.sales.clone()
    }
}

#[test]
fn test_record_buy_success() {
    let mock_bitcoin_flow_repository = StubBitcoinFlowRepository::with(Ok(vec![]), Ok(vec![]));

    let bitcoin_flow_use_case = BitcoinFlowUseCase::new(Arc::new(mock_bitcoin_flow_repository));

    let buy_bitcoin_model = BuyBitcoinModel {
        cost: 5000 * MINOR_PER_UNIT,
        amount: TENTH_OF_A_COIN,
        price: 80000 * MINOR_PER_UNIT,
        date: "2023-10-01".to_string(),
    };

    let result = bitcoin_flow_use_case.record_buy(buy_bitcoin_model);

    assert!(result.is_ok());
}

#[test]
fn test_record_sell_success() {
    let mock_bitcoin_flow_repository = StubBitcoinFlowRepository::with(Ok(vec![]), Ok(vec![]));

    let bitcoin_flow_use_case = BitcoinFlowUseCase::new(Arc::new(mock_bitcoin_flow_repository));

    let sell_bitcoin_model = SellBitcoinModel {
        cost: 5000 * MINOR_PER_UNIT,
        amount: TENTH_OF_A_COIN,
        price: 80000 * MINOR_PER_UNIT,
        date: "2023-10-01".to_string(),
    };

    let result = bitcoin_flow_use_case.record_sell(sell_bitcoin_model);

    assert!(result.is_ok());
}

#[test]
fn test_view_all_buy_success() {
    let mock_bitcoin_flow_repository = StubBitcoinFlowRepository::with(
        Ok(vec![BitcoinBuyLedger {
            id: 1,
            cost: 5000 * MINOR_PER_UNIT,
            amount: TENTH_OF_A_COIN,
            price: 80000 * MINOR_PER_UNIT,
            date: "2023-10-01".to_string(),
        }]),
        Ok(vec![]),
    );

    let bitcoin_flow_use_case = BitcoinFlowUseCase::new(Arc::new(mock_bitcoin_flow_repository));

    let result = bitcoin_flow_use_case.view_all_buy();

    assert!(result.is_ok());
    assert_eq!(result.unwrap().len(), 1);
}

#[test]
fn test_view_all_sell_success() {
    let mock_bitcoin_flow_repository = StubBitcoinFlowRepository::with(
        Ok(vec![]),
        Ok(vec![BitcoinSellLedger {
            id: 1,
            cost: 5000 * MINOR_PER_UNIT,
            amount: TENTH_OF_A_COIN,
            price: 80000 * MINOR_PER_UNIT,
            date: "2023-10-01".to_string(),
        }]),
    );

    let bitcoin_flow_use_case = BitcoinFlowUseCase::new(Arc::new(mock_bitcoin_flow_repository));

    let result = bitcoin_flow_use_case.view_all_sell();

    assert!(result.is_ok());
    assert_eq!(result.unwrap().len(), 1);
}

#[test]
fn record_buy_and_record_sell_hand_the_trade_to_the_storage() {
    let repository = Arc::new(StubBitcoinFlowRepository::with(Ok(vec![]), Ok(vec![])));
    let use_case = BitcoinFlowUseCase::new(Arc::clone(&repository));

    use_case
        .record_buy(BuyBitcoinModel {
            amount: 1,
            price: 2,
            cost: 3,
            date: "2023-10-01".to_string(),
        })
        .unwrap();
    use_case
        .record_sell(SellBitcoinModel {
            amount: 4,
            price: 5,
            cost: 6,
            date: "2023-10-02".to_string(),
        })
        .unwrap();

    let bought = repository.bought.borrow();
    let sold = repository.sold.borrow();
    assert_eq!(bought.len(), 1);
    assert_eq!(
        (bought[0].amount, bought[0].price, bought[0].cost, bought[0].date.as_str()),
        (1, 2, 3, "2023-10-01")
    );
    assert_eq!(sold.len(), 1);
    assert_eq!(
        (sold[0].amount, sold[0].price, sold[0].cost, sold[0].date.as_str()),
        (4, 5, 6, "2023-10-02")
    );
}

#[test]
fn listings_keep_fields_and_order_and_name_the_operation() {
    let purchases = vec![
        BitcoinBuyLedger { id: 2, amount: 11, price: 12, cost: 13, date: "2023-10-02".to_string() },
        BitcoinBuyLedger { id: 1, amount: 21, price: 22, cost: 23, date: "2023-10-01".to_string() },
    ];
    let sales = vec![BitcoinSellLedger {
        id: 5,
        amount: 31,
        price: 32,
        cost: 33,
        date: "2023-10-03".to_string(),
    }];

    let bought: Vec<(i32, i64, i64, i64, String, String)> = purchase_listings(&purchases)
        .into_iter()
        .map(|l| (l.id, l.amount, l.price, l.cost, l.operation, l.date))
        .collect();
    let sold: Vec<(i32, i64, i64, i64, String, String)> = sale_listings(&sales)
        .into_iter()
        .map(|l| (l.id, l.amount, l.price, l.cost, l.operation, l.date))
        .collect();

    assert_eq!(
        bought,
        vec![
            (2, 11, 12, 13, "Buy".to_string(), "2023-10-02".to_string()),
            (1, 21, 22, 23, "Buy".to_string(), "2023-10-01".to_string()),
        ]
    );
    assert_eq!(sold, vec![(5, 31, 32, 33, "Sell".to_string(), "2023-10-03".to_string())]);
}

#[test]
fn view_all_buy_and_view_all_sell_hand_on_a_failure_of_the_storage() {
    let repository = StubBitcoinFlowRepository::with(
        Err(LedgerError::StorageUnavailable("no such table".to_string())),
        Err(LedgerError::NotFound),
    );
    let use_case = BitcoinFlowUseCase::new(Arc::new(repository));

    match use_case.view_all_buy() {
        Err(LedgerError::StorageUnavailable(text)) => assert_eq!(text, "no such table"),
        _ => panic!("the failure of the storage was expected"),
    }
    assert!(matches!(use_case.view_all_sell(), Err(LedgerError::NotFound)));
}

#[test]
fn bitcoin_ledgers_to_model_name_the_operation() {
    let bought =
        BitcoinBuyLedger { id: 1, amount: 2, price: 3, cost: 4, date: "2023-10-01".to_string() }
            .to_model();
    let sold =
        BitcoinSellLedger { id: 5, amount: 6, price: 7, cost: 8, date: "2023-10-02".to_string() }
            .to_model();

    assert_eq!(bought.operation, "Buy");
    assert_eq!((bought.id, bought.amount, bought.price, bought.cost), (1, 2, 3, 4));
    assert_eq!(bought.date, "2023-10-01");
    assert_eq!(sold.operation, "Sell");
    assert_eq!((sold.id, sold.amount, sold.price, sold.cost), (5, 6, 7, 8));
    assert_eq!(sold.date, "2023-10-02");
}
