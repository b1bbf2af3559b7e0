use std::cell::RefCell;
use std::sync::Arc;
use your_money_left_the_chat::application::use_cases::debt_radar::{
    balance_if_fetched, balance_of, balances, DebtRadarUseCase,
};
use your_money_left_the_chat::domain::entities::debt_ledger::{
    DebtLedger, PaidDebtLedgerDto, RecordDebtLedgerDto,
};
use your_money_left_the_chat::domain::error::LedgerError;
use your_money_left_the_chat::domain::money::MINOR_PER_UNIT;
use your_money_left_the_chat::domain::repositories::debt_radar::DebtRadarRepository;
use your_money_left_the_chat::domain::value_objects::debt_radar::{
    PaidDebtModel, RecordDebtModel, RecordDebtWithDateModel,
};

// A storage that answers with what it was given, and notes what it was
// handed.
struct StubDebtRadarRepository {
    rows: Result<Vec<DebtLedger>, LedgerError>,
    asked_for: RefCell<Vec<String>>,
    recorded: RefCell<Vec<RecordDebtLedgerDto>>,
    paid: RefCell<Vec<PaidDebtLedgerDto>>,
}

impl StubDebtRadarRepository {
    fn with(rows: Result<Vec<DebtLedger>, LedgerError>) -> Self {
        StubDebtRadarRepository {
            rows,
            asked_for: RefCell::new(Vec::new()),
            recorded: RefCell::new(Vec::new()),
            paid: RefCell::new(Vec::new()),
        }
    }
}

impl DebtRadarRepository for StubDebtRadarRepository {
    fn record(&self, record_debt_ledger_dto: RecordDebtLedgerDto) -> Result<i32, LedgerError> {
        self.recorded.borrow_mut().push(record_debt_ledger_dto);
        Ok(1)
    }

    fn view_all(&self) -> Result<Vec<DebtLedger>, LedgerError> {
        self.rows.clone()
    }

    fn view_by_that_bro(&self, who: &str) -> Result<Vec<DebtLedger>, LedgerError> {
        self.asked_for.borrow_mut().push(who.to_string());
        self.rows.clone()
    }

    fn record_paid_debt(&self, paid_debt_ledger_dto: PaidDebtLedgerDto) -> Result<i32, LedgerError> {
        self.paid.borrow_mut().push(paid_debt_ledger_dto);
        Ok(1)
    }
}

fn debt(id: i32, amount: i64, who: &str) -> DebtLedger {
    DebtLedger {
        id,
        amount,
        category: "Test".to_string(),
        description: "Test description".to_string(),
        who: who.to_string(),
        date: "2023-10-01".to_string(),
    }
}

fn is_iso_date(text: &str) -> bool {
    let bytes = text.as_bytes();
    bytes.len() == 10
        && bytes.iter().enumerate().all(|(i, b)| {
            if i == 4 || i == 7 {
                *b == b'-'
            } else {
                b.is_ascii_digit()
            }
        })
}

#[test]
fn debt_radar_test_record_success() {
    let mock_debt_radar_repository = StubDebtRadarRepository::with(Ok(vec![]));

    let record_debt_model = RecordDebtModel {
        amount: 100 * MINOR_PER_UNIT,
        category: "Test".to_string(),
        description: "Test description".to_string(),
        who: "Test User".to_string(),
    };

    let debt_radar_use_case = DebtRadarUseCase::new(Arc::new(mock_debt_radar_repository));

    let result = debt_radar_use_case.record(record_debt_model);

    assert!(result.is_ok());
    assert_eq!(result.unwrap(), 1);
}

#[test]
fn test_view_all_success() {
    let mock_debt_radar_repository = StubDebtRadarRepository::with(Ok(vec![
        DebtLedger {
            id: 1,
            amount: 100 * MINOR_PER_UNIT,
            category: "Test".to_string(),
            description: "Test description".to_string(),
            who: "Test User".to_string(),
            date: "2023-10-01".to_string(),
        },
        DebtLedger {
            id: 2,
            amount: 200 * MINOR_PER_UNIT,
            category: "Test".to_string(),
            description: "Test description".to_string(),
            who: "Test User".to_string(),
            date: "2023-10-02".to_string(),
        },
    ]));

    let debt_radar_use_case = DebtRadarUseCase::new(Arc::new(mock_debt_radar_repository));

    let result = debt_radar_use_case.view_all();

    assert!(result.is_ok());
    assert_eq!(result.unwrap().get(0).unwrap().amount, 300 * MINOR_PER_UNIT as i128);
}

#[test]
fn test_view_by_that_bro_success() {
    let mock_debt_radar_repository = StubDebtRadarRepository::with(Ok(vec![
        DebtLedger {
            id: 1,
            amount: 100 * MINOR_PER_UNIT,
            category: "Test".to_string(),
            description: "Test description".to_string(),
            who: "Test User".to_string(),
            date: "2023-10-01".to_string(),
        },
        DebtLedger {
            id: 1,
            amount: 400 * MINOR_PER_UNIT,
            category: "Test".to_string(),
            description: "Test description".to_string(),
            who: "Test User".to_string(),
            date: "2023-10-01".to_string(),
        },
    ]));

    let debt_radar_use_case = DebtRadarUseCase::new(Arc::new(mock_debt_radar_repository));

    let result = debt_radar_use_case.view_by_that_bro("Test User");

    assert!(result.is_ok());
    assert_eq!(result.unwrap().unwrap().amount, 500 * MINOR_PER_UNIT as i128);
}

#[test]
fn test_record_paid_debt_success() {
    let mock_debt_radar_repository = StubDebtRadarRepository::with(Ok(vec![]));

    let paid_debt_model = PaidDebtModel {
        amount: 100 * MINOR_PER_UNIT,
        who: "Test User".to_string(),
        date: "2023-10-01".to_string(),
    };

    let debt_radar_use_case = DebtRadarUseCase::new(Arc::new(mock_debt_radar_repository));

    let result = debt_radar_use_case.record_paid_debt(paid_debt_model);

    assert!(result.is_ok());
}

#[test]
fn view_all_has_one_balance_for_each_counterparty() {
    let repository = StubDebtRadarRepository::with(Ok(vec![
        debt(1, 10_000, "Ann"),
        debt(2, 2_500, "Bob"),
        debt(3, -4_000, "Ann"),
        debt(4, 700, "ann"),
        debt(5, -2_500, "Bob"),
    ]));
    let use_case = DebtRadarUseCase::new(Arc::new(repository));

    let balances = use_case.view_all().unwrap();

    let mut seen: Vec<(&str, i128)> =
        balances.iter().map(|b| (b.who.as_str(), b.amount)).collect();
    seen.sort();
    assert_eq!(seen, vec![("Ann", 6_000), ("Bob", 0), ("ann", 700)]);
}

#[test]
fn view_all_of_no_rows_is_empty() {
    let use_case = DebtRadarUseCase::new(Arc::new(StubDebtRadarRepository::with(Ok(vec![]))));

    assert!(use_case.view_all().unwrap().is_empty());
}

#[test]
fn view_all_hands_on_a_failure_of_the_storage() {
    let repository = StubDebtRadarRepository::with(Err(LedgerError::StorageUnavailable(
        "disk is full".to_string(),
    )));
    let use_case = DebtRadarUseCase::new(Arc::new(repository));

    match use_case.view_all() {
        Err(LedgerError::StorageUnavailable(text)) => assert_eq!(text, "disk is full"),
        _ => panic!("the failure of the storage was expected"),
    }
}

#[test]
fn balances_hold_more_than_an_i64() {
    let balances = balances(&vec![
        debt(1, i64::MAX, "Ann"),
        debt(2, i64::MAX, "Ann"),
        debt(3, i64::MIN, "Bob"),
        debt(4, i64::MIN, "Bob"),
    ]);

    let mut seen: Vec<(&str, i128)> =
        balances.iter().map(|b| (b.who.as_str(), b.amount)).collect();
    seen.sort();
    assert_eq!(seen, vec![("Ann", 2 * (i64::MAX as i128)), ("Bob", 2 * (i64::MIN as i128))]);
}

#[test]
fn view_by_that_bro_asks_the_storage_for_the_counterparty() {
    let repository = Arc::new(StubDebtRadarRepository::with(Ok(vec![debt(1, 75, "Ann")])));
    let use_case = DebtRadarUseCase::new(Arc::clone(&repository));

    let balance = use_case.view_by_that_bro("Ann").unwrap().unwrap();

    assert_eq!(balance.who, "Ann");
    assert_eq!(balance.amount, 75);
    assert_eq!(*repository.asked_for.borrow(), vec!["Ann"]);
}

#[test]
fn view_by_that_bro_nets_repayments() {
    let repository = StubDebtRadarRepository::with(Ok(vec![
        debt(1, 50_000, "Ann"),
        debt(2, -20_000, "Ann"),
        debt(3, -30_001, "Ann"),
    ]));
    let use_case = DebtRadarUseCase::new(Arc::new(repository));

    let balance = use_case.view_by_that_bro("Ann").unwrap().unwrap();

    assert_eq!(balance.amount, -1);
}

#[test]
fn view_by_that_bro_of_no_rows_is_a_balance_of_zero() {
    let use_case = DebtRadarUseCase::new(Arc::new(StubDebtRadarRepository::with(Ok(vec![]))));

    let balance = use_case.view_by_that_bro("Nobody").unwrap().unwrap();

    assert_eq!(balance.who, "Nobody");
    assert_eq!(balance.amount, 0);
}

#[test]
fn view_by_that_bro_gives_no_balance_where_the_storage_fails() {
    for error in [
        LedgerError::NotFound,
        LedgerError::StorageUnavailable("no connection".to_string()),
        LedgerError::InvalidInput("who?".to_string()),
    ] {
        let use_case = DebtRadarUseCase::new(Arc::new(StubDebtRadarRepository::with(Err(error))));

        let result = use_case.view_by_that_bro("Ann");

        assert!(matches!(result, Ok(None)));
    }
}

#[test]
fn balance_does_not_depend_on_the_order_of_the_rows() {
    let rows = vec![
        debt(1, 10_000, "Ann"),
        debt(2, -2_500, "Ann"),
        debt(3, 40_000, "Ann"),
        debt(4, -1, "Ann"),
    ];
    let expected = 47_499;

    let orders: [[usize; 4]; 6] =
        [[0, 1, 2, 3], [3, 2, 1, 0], [1, 0, 3, 2], [2, 3, 0, 1], [1, 2, 3, 0], [3, 0, 2, 1]];
    for order in orders {
        let reordered: Vec<DebtLedger> = order.iter().map(|i| rows[*i].clone()).collect();
        assert_eq!(balance_of("Ann", &reordered).amount, expected);
        assert_eq!(DebtLedger::sum_of(&reordered), expected);
    }
}

#[test]
fn balances_do_not_depend_on_the_order_of_the_rows() {
    let rows = vec![
        debt(1, 10_000, "Ann"),
        debt(2, 2_500, "Bob"),
        debt(3, -4_000, "Ann"),
        debt(4, 700, "Cid"),
    ];
    let mut reversed = rows.clone();
    reversed.reverse();

    let mut seen: Vec<(String, i128)> =
        balances(&rows).into_iter().map(|b| (b.who, b.amount)).collect();
    let mut again: Vec<(String, i128)> =
        balances(&reversed).into_iter().map(|b| (b.who, b.amount)).collect();
    seen.sort();
    again.sort();

    assert_eq!(seen, again);
    assert_eq!(
        seen,
        vec![("Ann".to_string(), 6_000), ("Bob".to_string(), 2_500), ("Cid".to_string(), 700)]
    );
}

#[test]
fn balance_if_fetched_follows_the_answer_of_the_storage() {
    let found = balance_if_fetched("Ann", Ok(vec![debt(1, 100, "Ann"), debt(2, 400, "Ann")]));
    let failed = balance_if_fetched("Ann", Err(LedgerError::NotFound));

    match found {
        Some(balance) => {
            assert_eq!(balance.who, "Ann");
            assert_eq!(balance.amount, 500);
        },
        None => panic!("a balance was expected"),
    }
    assert!(failed.is_none());
}

#[test]
fn record_hands_the_debt_to_the_storage_under_todays_date() {
    let repository = Arc::new(StubDebtRadarRepository::with(Ok(vec![])));
    let use_case = DebtRadarUseCase::new(Arc::clone(&repository));

    use_case
        .record(RecordDebtModel {
            amount: 12_345,
            category: "Loan".to_string(),
            description: "Concert tickets".to_string(),
            who: "Ann".to_string(),
        })
        .unwrap();

    let recorded = repository.recorded.borrow();
    assert_eq!(recorded.len(), 1);
    assert_eq!(recorded[0].amount, 12_345);
    assert_eq!(recorded[0].category, "Loan");
    assert_eq!(recorded[0].description, "Concert tickets");
    assert_eq!(recorded[0].who, "Ann");
    assert!(is_iso_date(&recorded[0].date));
}

#[test]
fn record_paid_debt_hands_the_negated_amount_to_the_storage() {
    let repository = Arc::new(StubDebtRadarRepository::with(Ok(vec![])));
    let use_case = DebtRadarUseCase::new(Arc::clone(&repository));

    use_case
        .record_paid_debt(PaidDebtModel {
            amount: 10_000,
            who: "Test User".to_string(),
            date: "2023-10-01".to_string(),
        })
        .unwrap();

    let paid = repository.paid.borrow();
    assert_eq!(paid.len(), 1);
    assert_eq!(paid[0].amount, -10_000);
    assert_eq!(paid[0].category, "Paid Debt");
    assert_eq!(paid[0].description, "Paid Debt");
    assert_eq!(paid[0].who, "Test User");
    assert_eq!(paid[0].date, "2023-10-01");
}

#[test]
fn record_paid_debt_refuses_an_amount_that_cannot_be_negated() {
    let repository = Arc::new(StubDebtRadarRepository::with(Ok(vec![])));
    let use_case = DebtRadarUseCase::new(Arc::clone(&repository));

    let result = use_case.record_paid_debt(PaidDebtModel {
        amount: i64::MIN,
        who: "Test User".to_string(),
        date: "2023-10-01".to_string(),
    });

    assert!(matches!(result, Err(LedgerError::InvalidInput(_))));
    assert!(repository.paid.borrow().is_empty());
}

#[test]
fn a_repayment_offsets_the_debt_it_pays() {
    let paid = PaidDebtModel {
        amount: 40_000,
        who: "Ann".to_string(),
        date: "2023-10-05".to_string(),
    }
    .to_dto();
    let rows = vec![
        debt(1, 40_000, "Ann"),
        DebtLedger {
            id: 2,
            amount: paid.amount,
            category: paid.category,
            description: paid.description,
            who: paid.who,
            date: paid.date,
        },
    ];

    assert_eq!(balance_of("Ann", &rows).amount, 0);
}

#[test]
fn paid_debt_model_to_dto_negates_a_negative_amount_too() {
    let dto = PaidDebtModel {
        amount: -i64::MAX,
        who: "Ann".to_string(),
        date: "2023-10-05".to_string(),
    }
    .to_dto();

    assert_eq!(dto.amount, i64::MAX);
}

#[test]
fn record_debt_model_to_dto_on_keeps_fields_and_takes_the_date() {
    let dto = RecordDebtModel {
        amount: -5,
        category: "Loan".to_string(),
        description: "".to_string(),
        who: "Ann".to_string(),
    }
    .to_dto_on("1999-12-31".to_string());

    assert_eq!(dto.amount, -5);
    assert_eq!(dto.category, "Loan");
    assert_eq!(dto.description, "");
    assert_eq!(dto.who, "Ann");
    assert_eq!(dto.date, "1999-12-31");
}

#[test]
fn record_debt_with_date_model_to_dto_keeps_fields() {
    let dto = RecordDebtWithDateModel {
        amount: 77,
        category: "loan".to_string(),
        description: "Taxi".to_string(),
        who: "Bob".to_string(),
        date: "2024-02-29".to_string(),
    }
    .to_dto();

    assert_eq!(dto.amount, 77);
    assert_eq!(dto.category, "loan");
    assert_eq!(dto.description, "Taxi");
    assert_eq!(dto.who, "Bob");
    assert_eq!(dto.date, "2024-02-29");
}

#[test]
fn debt_ledger_to_model_takes_counterparty_and_amount() {
    let model = debt(3, -250, "Ann").to_model();

    assert_eq!(model.who, "Ann");
    assert_eq!(model.amount, -250);
}
