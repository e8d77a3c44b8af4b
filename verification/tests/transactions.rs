#![allow(dead_code)]

use annex_pos::datetime::{NaiveDate, NaiveDateTime, NaiveTime};
use annex_pos::error::AppError;
use annex_pos::models::{
    Category, ClubImport, ClubTransaction, ClubTransactionWithTotal, Customer, CustomerTransaction,
    CustomerTxDetail, InventoryTransaction, Operator, PeriodTotals, PriceAdjustment, Product,
    ProductInventoryReport, ProductInventoryTotals, ProductSalesByCategory, SalesReportDetails, SalesTotals,
    TransactionType,
};
use annex_pos::repos::{
    CategoryRepoTrait, ClubImportRepoTrait, ClubTransactionRepoTrait, CredentialRepoTrait,
    CustomerRepoTrait, CustomerTransactionRepoTrait, CustomerTxDetailRepoTrait,
    InventoryTransactionRepoTrait, OperatorRepoTrait, PriceAdjustmentRepoTrait, ProductRepoTrait,
    PriceUnitOfWork, SaleDetailsTuple, SaleUnitOfWork, WeeklyLimitRepoTrait,
};

/// A fixed moment for records that need one.
fn fixed_time() -> NaiveDateTime {
    NaiveDate::from_ymd_opt(2025, 1, 1).unwrap().and_hms_opt(12, 0, 0).unwrap()
}
use annex_pos::transactions::TransactionUseCases;

type Uc<D> = TransactionUseCases<
    MockInventoryTransactionRepo,
    MockCustomerTransactionRepo,
    D,
    MockWeeklyLimitRepo,
    MockUnitOfWork<(MockInventoryTransactionRepo, MockCustomerTransactionRepo, D)>,
>;

fn make_use_cases() -> (Uc<MockCustomerTxDetailRepo>, MockOperatorRepo, MockProductRepo) {
    let uc = TransactionUseCases::new(
        MockInventoryTransactionRepo::new(),
        MockCustomerTransactionRepo::new(),
        MockCustomerTxDetailRepo::new(),
        MockWeeklyLimitRepo::new(),
        MockUnitOfWork::new(),
    );
    (uc, MockOperatorRepo::new(), MockProductRepo::new())
}

fn product(upc: &str) -> Product {
    Product {
        upc: upc.to_string(),
        desc: String::new(),
        category: String::new(),
        price: 0,
        updated: None,
        added: None,
        deleted: None,
    }
}

fn inventory(operator_mdoc: i32, customer_mdoc: Option<i32>, upc: &str, quantity_change: i32) -> InventoryTransaction {
    InventoryTransaction {
        id: None,
        upc: upc.to_string(),
        quantity_change,
        operator_mdoc,
        customer_mdoc,
        ref_order_id: None,
        reference: None,
        created_at: None,
    }
}

/// A detail store whose writes inside a storage transaction always fail.
#[derive(Clone)]
struct FailingDetailRepo;

impl CustomerTxDetailRepoTrait for FailingDetailRepo {
    fn create(&mut self, _detail: &CustomerTxDetail) -> Result<(), AppError> {
        Err(AppError::Db("detail insert failed".to_string()))
    }
    fn create_with_tx(&mut self, _detail: &CustomerTxDetail) -> Result<i32, AppError> {
        Err(AppError::Db("detail insert failed".to_string()))
    }
    fn list_by_order(&self, _order_id: i32) -> Result<Vec<(CustomerTxDetail, String)>, AppError> {
        Ok(vec![])
    }
    fn sales_by_category(&self, _start: NaiveDateTime, _end: NaiveDateTime) -> Result<Vec<ProductSalesByCategory>, AppError> {
        Ok(vec![])
    }
    fn get_sales_totals(&self, _start: NaiveDateTime, _end: NaiveDateTime) -> Result<SalesTotals, AppError> {
        Ok(SalesTotals { total_quantity: 0, total_value: 0 })
    }
}

#[test]
fn inventory_and_sale_and_stock_flows() {
    let (mut uc, mut op_repo, mut prod_repo) = make_use_cases();
    // seed FK tables
    op_repo.create(&Operator { mdoc: 10, name: "Op1".to_string(), start: Some(fixed_time()), stop: None }).unwrap();
    prod_repo.create(&product("000000000555")).unwrap();
    // inventory adjust
    let itx1 = uc.inventory_adjustment(inventory(10, None, "000000000555", 5)).unwrap();
    assert_eq!(itx1.upc, "000000000555");
    assert_eq!(itx1.quantity_change, 5);
    // sale transaction
    let order_id = uc
        .sale_transaction(
            CustomerTransaction { order_id: 0, customer_mdoc: 20, operator_mdoc: 10, date: None, note: None },
            vec![inventory(10, Some(20), "000000000555", -2)],
            vec![CustomerTxDetail { detail_id: 0, order_id: 0, upc: "000000000555".to_string(), quantity: 2, price: 1000 }],
        )
        .unwrap();
    assert_eq!(order_id, 1);
}

#[test]
fn list_filters() {
    let (mut uc, mut op_repo, mut prod_repo) = make_use_cases();
    // seed FK tables
    op_repo.create(&Operator { mdoc: 1, name: "Op1".to_string(), start: Some(fixed_time()), stop: None }).unwrap();
    op_repo.create(&Operator { mdoc: 2, name: "Op2".to_string(), start: Some(fixed_time()), stop: None }).unwrap();
    prod_repo.create(&product("000000000001")).unwrap();
    // create two adjustments
    uc.inventory_adjustment(inventory(1, None, "000000000001", 1)).unwrap();
    uc.inventory_adjustment(inventory(2, None, "000000000001", 2)).unwrap();
}

#[test]
fn sale_transaction_commits_all_repos() {
    let (mut uc, mut op_repo, mut prod_repo) = make_use_cases();
    // seed operator and product so we don't violate FKs
    op_repo.create(&Operator { mdoc: 1, name: "Op1".to_string(), start: Some(fixed_time()), stop: None }).unwrap();
    prod_repo.create(&product("A")).unwrap();
    let invs = vec![inventory(1, Some(2), "A", 1)];
    let details = vec![CustomerTxDetail { detail_id: 0, order_id: 0, upc: "A".to_string(), quantity: 1, price: 50 }];
    let ct = CustomerTransaction { order_id: 0, customer_mdoc: 2, operator_mdoc: 1, date: None, note: None };
    let order_id = uc.sale_transaction(ct, invs, details).unwrap();
    assert!(order_id > 0);
    assert_eq!(uc.inv_repo.list_for_product("A".to_string()).unwrap().len(), 1);
    assert_eq!(uc.cust_tx_repo.list().unwrap().len(), 1);
    let dets = uc.cust_tx_detail_repo.list_by_order(order_id).unwrap();
    assert_eq!(dets.len(), 1);
}

#[test]
fn sale_transaction_rolls_back_on_detail_error() {
    let mut uc: Uc<FailingDetailRepo> = TransactionUseCases::new(
        MockInventoryTransactionRepo::new(),
        MockCustomerTransactionRepo::new(),
        FailingDetailRepo,
        MockWeeklyLimitRepo::new(),
        MockUnitOfWork::new(),
    );

    // prepare one inventory-tx + one bad detail
    let invs = vec![inventory(1, Some(2), "B", 1)];

    // build a dummy customer transaction
    let cust_tx = CustomerTransaction { order_id: 0, customer_mdoc: 2, operator_mdoc: 1, date: None, note: None };
    // FailingDetailRepo will fail on create_with_tx
    let details = vec![CustomerTxDetail { detail_id: 0, order_id: 0, upc: "B".to_string(), quantity: 1, price: 999 }];
    let result = uc.sale_transaction(cust_tx, invs, details);
    assert!(result.is_err(), "Expected sale_transaction to error and rollback");
}

#[test]
fn failed_sale_is_rolled_back_and_never_committed() {
    let mut uc: Uc<FailingDetailRepo> = TransactionUseCases::new(
        MockInventoryTransactionRepo::new(),
        MockCustomerTransactionRepo::new(),
        FailingDetailRepo,
        MockWeeklyLimitRepo::new(),
        MockUnitOfWork::new(),
    );
    let cust_tx = CustomerTransaction { order_id: 0, customer_mdoc: 2, operator_mdoc: 1, date: None, note: None };
    let details = vec![CustomerTxDetail { detail_id: 0, order_id: 0, upc: "B".to_string(), quantity: 1, price: 999 }];
    let err = uc.sale_transaction(cust_tx, vec![], details).unwrap_err();
    assert_eq!(err.to_string(), "database error: detail insert failed");
    assert_eq!((uc.conn.begun, uc.conn.committed, uc.conn.rolled_back), (1, 0, 1));
}

#[test]
fn sale_links_every_line_to_the_new_order() {
    let (mut uc, _, _) = make_use_cases();
    let when = NaiveDate::from_ymd_opt(2025, 3, 4).unwrap().and_hms_opt(9, 30, 0).unwrap();
    let ct = CustomerTransaction {
        order_id: 0,
        customer_mdoc: 5,
        operator_mdoc: 1,
        date: Some(when),
        note: Some("n".to_string()),
    };
    let invs = vec![inventory(1, Some(5), "X", -1), inventory(1, Some(5), "Y", -3)];
    let details = vec![
        CustomerTxDetail { detail_id: 0, order_id: 0, upc: "X".to_string(), quantity: 1, price: 100 },
        CustomerTxDetail { detail_id: 0, order_id: 0, upc: "Y".to_string(), quantity: 3, price: 250 },
    ];
    let order_id = uc.sale_transaction(ct, invs, details).unwrap();
    let orders = uc.cust_tx_repo.list().unwrap();
    assert_eq!(orders.len(), 1);
    assert_eq!(orders[0].date, Some(when));
    assert_eq!(orders[0].order_id, order_id);
    let stock = uc.inv_repo.list().unwrap();
    assert_eq!(stock.len(), 2);
    assert!(stock.iter().all(|t| t.ref_order_id == Some(order_id)));
    let lines = uc.list_order_details(order_id).unwrap();
    assert_eq!(lines.len(), 2);
    assert!(lines.iter().all(|(d, _)| d.order_id == order_id));
    assert_eq!((uc.conn.begun, uc.conn.committed, uc.conn.rolled_back), (1, 1, 0));
}

#[test]
fn inventory_adjustment_stamps_the_time() {
    let (mut uc, _, _) = make_use_cases();
    let t = uc.inventory_adjustment(inventory(3, Some(4), "Z", -1)).unwrap();
    assert!(t.created_at.is_some());
    assert_eq!(uc.list_for_customer(4).unwrap(), vec![t.clone()]);
    assert_eq!(uc.list_for_product("Z".to_string()).unwrap(), vec![t]);
    assert_eq!(uc.count_inventory_transactions(None, None).unwrap(), 1);
}

#[test]
fn weekly_limit_round_trip() {
    let (mut uc, _, _) = make_use_cases();
    assert_eq!(uc.get_weekly_limit().unwrap(), 0);
    uc.set_weekly_limit(2500).unwrap();
    assert_eq!(uc.get_weekly_limit().unwrap(), 2500);
    assert_eq!(uc.get_weekly_spent(7).unwrap(), 0);
}

#[test]
fn unknown_order_is_not_found() {
    let (uc, _, _) = make_use_cases();
    assert!(matches!(uc.get_sale_details(99), Err(AppError::NotFound(_))));
}

/// Sakamoto's weekday, counted from Sunday, with floor division.
fn sakamoto(d: NaiveDate) -> u32 {
    let t = [0, 3, 2, 5, 0, 3, 5, 1, 4, 6, 2, 4];
    let y = if d.month < 3 { d.year - 1 } else { d.year } as i64;
    let v = y + y.div_euclid(4) - y.div_euclid(100) + y.div_euclid(400) + t[(d.month - 1) as usize] + d.day as i64;
    v.rem_euclid(7) as u32
}

fn day_before(d: NaiveDate) -> NaiveDate {
    if d.day > 1 {
        NaiveDate::from_ymd_opt(d.year, d.month, d.day - 1).unwrap()
    } else if d.month > 1 {
        (28..=31).rev().find_map(|dd| NaiveDate::from_ymd_opt(d.year, d.month - 1, dd)).unwrap()
    } else {
        NaiveDate::from_ymd_opt(d.year - 1, 12, 31).unwrap()
    }
}

#[test]
fn weekly_window_starts_sunday_midnight() {
    let (uc, _, _) = make_use_cases();
    let thursday = NaiveDate::from_ymd_opt(2025, 1, 2).unwrap().and_hms_opt(15, 45, 0).unwrap();
    uc.weekly_spent_at(7, thursday).unwrap();
    assert_eq!(uc.cust_tx_repo.week_starts.borrow().last().unwrap().to_string(), "2024-12-29 00:00:00");
    for y in [-262142, -1000, -401, -400, -1, 0, 1, 4, 100, 1600, 1900, 1970, 2000, 2024, 2100, 262142] {
        for m in 1..=12u32 {
            for d in [1u32, 2, 3, 6, 7, 15, 28, 29, 30, 31] {
                if let Some(date) = NaiveDate::from_ymd_opt(y, m, d) {
                    uc.weekly_spent_at(7, date.and_hms_opt(13, 5, 0).unwrap()).unwrap();
                    let start = *uc.cust_tx_repo.week_starts.borrow().last().unwrap();
                    let mut expected = date;
                    for _ in 0..sakamoto(date) {
                        expected = day_before(expected);
                    }
                    assert_eq!(start.date, expected, "{y}-{m}-{d}");
                    assert_eq!(sakamoto(start.date), 0);
                    assert_eq!(start.time, NaiveTime::from_hms_opt(0, 0, 0).unwrap());
                }
            }
        }
    }
}

#[test]
fn failed_sale_leaves_every_store_as_it_was() {
    let mut uc: Uc<FailingDetailRepo> = TransactionUseCases::new(
        MockInventoryTransactionRepo::new(),
        MockCustomerTransactionRepo::new(),
        FailingDetailRepo,
        MockWeeklyLimitRepo::new(),
        MockUnitOfWork::new(),
    );
    let cust_tx = CustomerTransaction { order_id: 0, customer_mdoc: 2, operator_mdoc: 1, date: None, note: None };
    let invs = vec![inventory(1, Some(2), "B", -1), inventory(1, Some(2), "C", -2)];
    let details = vec![CustomerTxDetail { detail_id: 0, order_id: 0, upc: "B".to_string(), quantity: 1, price: 999 }];
    assert!(uc.sale_transaction(cust_tx, invs, details).is_err());
    assert!(uc.inv_repo.list().unwrap().is_empty());
    assert!(uc.cust_tx_repo.list().unwrap().is_empty());
}

#[test]
fn sale_whose_commit_fails_keeps_nothing() {
    let (mut uc, _, _) = make_use_cases();
    uc.inventory_adjustment(inventory(1, None, "A", 4)).unwrap();
    uc.conn.fail_commit = true;
    let ct = CustomerTransaction { order_id: 0, customer_mdoc: 2, operator_mdoc: 1, date: None, note: None };
    let invs = vec![inventory(1, Some(2), "A", -1)];
    let details = vec![CustomerTxDetail { detail_id: 0, order_id: 0, upc: "A".to_string(), quantity: 1, price: 50 }];
    let err = uc.sale_transaction(ct, invs, details).unwrap_err();
    assert_eq!(err.to_string(), "database error: commit failed");
    assert_eq!(uc.inv_repo.list().unwrap().len(), 1);
    assert!(uc.cust_tx_repo.list().unwrap().is_empty());
    assert!(uc.list_order_details(1).unwrap().is_empty());
    assert_eq!((uc.conn.begun, uc.conn.committed), (1, 0));
}
#[derive(Default)]
pub struct MockOperatorRepo {
    items: Vec<Operator>,
}

impl MockOperatorRepo {
    pub fn new() -> Self {
        Self::default()
    }
}

impl OperatorRepoTrait for MockOperatorRepo {
    fn get_by_mdoc(&self, mdoc: i32) -> Result<Option<Operator>, AppError> {
        Ok(self.items.iter().find(|o| o.mdoc == mdoc).cloned())
    }
    fn create(&mut self, operator: &Operator) -> Result<(), AppError> {
        self.items.push(operator.clone());
        Ok(())
    }
    fn update_by_mdoc(&mut self, operator: &Operator) -> Result<(), AppError> {
        for o in self.items.iter_mut() {
            if o.mdoc == operator.mdoc {
                *o = operator.clone();
            }
        }
        Ok(())
    }
    fn list(&self) -> Result<Vec<Operator>, AppError> {
        Ok(self.items.clone())
    }
}

#[derive(Default, Clone)]
pub struct MockProductRepo {
    items: Vec<Product>,
}

impl MockProductRepo {
    pub fn new() -> Self {
        Self::default()
    }
}

impl ProductRepoTrait for MockProductRepo {
    fn get_by_upc(&self, upc: String) -> Result<Option<Product>, AppError> {
        Ok(self.items.iter().find(|p| p.upc == upc).cloned())
    }
    fn create(&mut self, product: &Product) -> Result<(), AppError> {
        self.items.push(product.clone());
        Ok(())
    }
    fn update_by_upc(&mut self, product: &Product) -> Result<(), AppError> {
        for p in self.items.iter_mut() {
            if p.upc == product.upc {
                *p = product.clone();
            }
        }
        Ok(())
    }
    fn list(&self) -> Result<Vec<Product>, AppError> {
        Ok(self.items.clone())
    }
    fn search(
        &self,
        desc_like: Option<String>,
        category: Option<String>,
        limit: i32,
        offset: i32,
    ) -> Result<Vec<(Product, i32)>, AppError> {
        let matching: Vec<(Product, i32)> = self
            .items
            .iter()
            .filter(|p| desc_like.as_ref().map_or(true, |d| p.desc.contains(d.as_str())))
            .filter(|p| category.as_ref().map_or(true, |c| &p.category == c))
            .map(|p| (p.clone(), 0))
            .collect();
        Ok(matching
            .into_iter()
            .skip(offset.max(0) as usize)
            .take(limit.max(0) as usize)
            .collect())
    }
    fn count(&self, desc_like: Option<String>, category: Option<String>) -> Result<i32, AppError> {
        Ok(self.search(desc_like, category, i32::MAX, 0)?.len() as i32)
    }
    fn get_price(&self, upc: String) -> Result<i32, AppError> {
        match self.items.iter().find(|p| p.upc == upc) {
            Some(p) => Ok(p.price),
            None => Err(AppError::NotFound(format!("product {upc}"))),
        }
    }
    fn report_by_category(&self) -> Result<Vec<ProductInventoryReport>, AppError> {
        Ok(self
            .items
            .iter()
            .map(|p| ProductInventoryReport {
                category: p.category.clone(),
                upc: Some(p.upc.clone()),
                name: Some(p.desc.clone()),
                price: Some(p.price),
                quantity: 0,
                total: 0,
                is_summary: false,
            })
            .collect())
    }
    fn get_inventory_totals(&self) -> Result<ProductInventoryTotals, AppError> {
        Ok(ProductInventoryTotals { total_quantity: 0, total_value: 0 })
    }
    fn update_by_upc_with_tx(&mut self, product: &Product) -> Result<(), AppError> {
        self.update_by_upc(product)
    }
}

#[derive(Default)]
pub struct MockCategoryRepo {
    items: Vec<Category>,
}

impl MockCategoryRepo {
    pub fn new() -> Self {
        Self::default()
    }
}

impl CategoryRepoTrait for MockCategoryRepo {
    fn list_active(&self) -> Result<Vec<Category>, AppError> {
        Ok(self.items.iter().filter(|c| c.deleted.is_none()).cloned().collect())
    }
    fn get_by_name(&self, name: &str) -> Result<Option<Category>, AppError> {
        Ok(self.items.iter().find(|c| c.name == name).cloned())
    }
    fn create(&mut self, name: String) -> Result<(), AppError> {
        let id = self.items.len() as i32 + 1;
        self.items.push(Category { id, name, deleted: None });
        Ok(())
    }
    fn soft_delete(&mut self, id: i32) -> Result<(), AppError> {
        let now = fixed_time();
        for c in self.items.iter_mut() {
            if c.id == id {
                c.deleted = Some(now);
            }
        }
        Ok(())
    }
    fn undelete(&mut self, id: i32) -> Result<(), AppError> {
        for c in self.items.iter_mut() {
            if c.id == id {
                c.deleted = None;
            }
        }
        Ok(())
    }
    fn list(&self) -> Result<Vec<Category>, AppError> {
        Ok(self.items.clone())
    }
}

#[derive(Default)]
pub struct MockCustomerRepo {
    items: Vec<Customer>,
}

impl MockCustomerRepo {
    pub fn new() -> Self {
        Self::default()
    }
}

impl CustomerRepoTrait for MockCustomerRepo {
    fn get_by_mdoc(&self, mdoc: i32) -> Result<Option<Customer>, AppError> {
        Ok(self.items.iter().find(|c| c.mdoc == mdoc).cloned())
    }
    fn update(&mut self, customer: &Customer) -> Result<(), AppError> {
        for c in self.items.iter_mut() {
            if c.mdoc == customer.mdoc {
                *c = customer.clone();
            }
        }
        Ok(())
    }
    fn create(&mut self, customer: &Customer) -> Result<(), AppError> {
        self.items.push(customer.clone());
        Ok(())
    }
    fn list(&self) -> Result<Vec<Customer>, AppError> {
        Ok(self.items.clone())
    }
    fn search(&self, limit: i32, offset: i32, search: Option<String>) -> Result<Vec<(Customer, i32)>, AppError> {
        Ok(self
            .items
            .iter()
            .filter(|c| search.as_ref().map_or(true, |s| c.name.contains(s.as_str())))
            .skip(offset.max(0) as usize)
            .take(limit.max(0) as usize)
            .map(|c| (c.clone(), 0))
            .collect())
    }
    fn count(&self, search: Option<String>) -> Result<i32, AppError> {
        Ok(self.search(i32::MAX, 0, search)?.len() as i32)
    }
    fn sum_all_balances(&self) -> Result<i32, AppError> {
        Ok(0)
    }
    fn list_customer_accounts(&self) -> Result<Vec<(Customer, i32)>, AppError> {
        Ok(self.items.iter().map(|c| (c.clone(), 0)).collect())
    }
}

#[derive(Default)]
pub struct MockClubTransactionRepo {
    items: Vec<ClubTransaction>,
}

impl MockClubTransactionRepo {
    pub fn new() -> Self {
        Self::default()
    }
}

impl ClubTransactionRepoTrait for MockClubTransactionRepo {
    fn create(&mut self, tx: &ClubTransaction) -> Result<(), AppError> {
        self.items.push(tx.clone());
        Ok(())
    }
    fn list(&self) -> Result<Vec<ClubTransaction>, AppError> {
        Ok(self.items.clone())
    }
    fn search(
        &self,
        limit: i32,
        offset: i32,
        _date: Option<String>,
        _search: Option<String>,
    ) -> Result<Vec<(ClubTransaction, Option<String>)>, AppError> {
        Ok(self
            .items
            .iter()
            .skip(offset.max(0) as usize)
            .take(limit.max(0) as usize)
            .map(|t| (t.clone(), None))
            .collect())
    }
    fn count(&self, _date: Option<String>, _search: Option<String>) -> Result<i32, AppError> {
        Ok(self.items.len() as i32)
    }
    fn get_account_total(&self) -> Result<i32, AppError> {
        Ok(self.items.iter().map(|t| t.amount).sum())
    }
    fn get_by_import_id_with_total(
        &self,
        import_id: i32,
        _start_date: Option<NaiveDateTime>,
    ) -> Result<Vec<ClubTransactionWithTotal>, AppError> {
        let mut running = 0;
        Ok(self
            .items
            .iter()
            .filter(|t| t.import_id == import_id)
            .map(|t| {
                running += t.amount;
                ClubTransactionWithTotal {
                    id: t.id,
                    import_id: t.import_id,
                    entity_name: t.entity_name.clone(),
                    mdoc: t.mdoc,
                    tx_type: format!("{:?}", t.tx_type),
                    amount: t.amount,
                    date: t.date,
                    running_total: running,
                }
            })
            .collect())
    }
    fn get_period_sums_for_import(&self, import_id: i32) -> Result<PeriodTotals, AppError> {
        let of_import = || self.items.iter().filter(move |t| t.import_id == import_id);
        Ok(PeriodTotals {
            period_pos_sum: of_import().filter(|t| t.amount > 0).map(|t| t.amount).sum(),
            period_neg_sum: of_import().filter(|t| t.amount < 0).map(|t| t.amount).sum(),
        })
    }
}

#[derive(Default)]
pub struct MockClubImportRepo {
    items: Vec<ClubImport>,
}

impl MockClubImportRepo {
    pub fn new() -> Self {
        Self::default()
    }
}

impl ClubImportRepoTrait for MockClubImportRepo {
    fn create(&mut self, import: &ClubImport) -> Result<(), AppError> {
        self.items.push(import.clone());
        Ok(())
    }
    fn list(&self) -> Result<Vec<ClubImport>, AppError> {
        Ok(self.items.clone())
    }
    fn get_by_id(&self, id: i32) -> Result<Option<ClubImport>, AppError> {
        Ok(self.items.iter().find(|i| i.id == id).cloned())
    }
}

#[derive(Default, Clone)]
pub struct MockInventoryTransactionRepo {
    items: Vec<InventoryTransaction>,
}

impl MockInventoryTransactionRepo {
    pub fn new() -> Self {
        Self::default()
    }
}

impl InventoryTransactionRepoTrait for MockInventoryTransactionRepo {
    fn create(&mut self, tx: &InventoryTransaction) -> Result<(), AppError> {
        self.items.push(tx.clone());
        Ok(())
    }
    fn create_with_tx(&mut self, tx: &InventoryTransaction) -> Result<(), AppError> {
        self.create(tx)
    }
    fn list(&self) -> Result<Vec<InventoryTransaction>, AppError> {
        Ok(self.items.clone())
    }
    fn list_for_product(&self, upc: String) -> Result<Vec<InventoryTransaction>, AppError> {
        Ok(self.items.iter().filter(|t| t.upc == upc).cloned().collect())
    }
    fn list_for_customer(&self, customer_mdoc: i32) -> Result<Vec<InventoryTransaction>, AppError> {
        Ok(self.items.iter().filter(|t| t.customer_mdoc == Some(customer_mdoc)).cloned().collect())
    }
    fn search(
        &self,
        limit: i32,
        offset: i32,
        _date: Option<String>,
        _search: Option<String>,
    ) -> Result<Vec<(InventoryTransaction, String, String)>, AppError> {
        Ok(self
            .items
            .iter()
            .skip(offset.max(0) as usize)
            .take(limit.max(0) as usize)
            .map(|t| (t.clone(), String::new(), String::new()))
            .collect())
    }
    fn count(&self, _date: Option<String>, _search: Option<String>) -> Result<i32, AppError> {
        Ok(self.items.len() as i32)
    }
    fn list_for_operator(&self, operator_mdoc: i32) -> Result<Vec<InventoryTransaction>, AppError> {
        Ok(self.items.iter().filter(|t| t.operator_mdoc == operator_mdoc).cloned().collect())
    }
    fn list_for_today(&self) -> Result<Vec<InventoryTransaction>, AppError> {
        Ok(Vec::new())
    }
}

#[derive(Default, Clone)]
pub struct MockCustomerTransactionRepo {
    items: Vec<CustomerTransaction>,
    /// The week starts that weekly spending was asked for, in order.
    pub week_starts: std::cell::RefCell<Vec<NaiveDateTime>>,
}

impl MockCustomerTransactionRepo {
    pub fn new() -> Self {
        Self::default()
    }
}

impl CustomerTransactionRepoTrait for MockCustomerTransactionRepo {
    fn create(&mut self, tx: &CustomerTransaction) -> Result<(), AppError> {
        self.items.push(tx.clone());
        Ok(())
    }
    fn create_with_tx(&mut self, tx: &CustomerTransaction) -> Result<i32, AppError> {
        let id = self.items.len() as i32 + 1;
        let mut stored = tx.clone();
        stored.order_id = id;
        self.items.push(stored);
        Ok(id)
    }
    fn list(&self) -> Result<Vec<CustomerTransaction>, AppError> {
        Ok(self.items.clone())
    }
    fn search(
        &self,
        limit: i32,
        offset: i32,
        mdoc: Option<i32>,
        _date: Option<String>,
        _search: Option<String>,
    ) -> Result<Vec<(CustomerTransaction, String, i32)>, AppError> {
        Ok(self
            .items
            .iter()
            .filter(|t| mdoc.map_or(true, |m| t.customer_mdoc == m))
            .skip(offset.max(0) as usize)
            .take(limit.max(0) as usize)
            .map(|t| (t.clone(), String::new(), 0))
            .collect())
    }
    fn count(&self, mdoc: Option<i32>, _date: Option<String>, _search: Option<String>) -> Result<i32, AppError> {
        Ok(self.items.iter().filter(|t| mdoc.map_or(true, |m| t.customer_mdoc == m)).count() as i32)
    }
    fn get_with_details_and_balance(&self, order_id: i32) -> Result<SaleDetailsTuple, AppError> {
        match self.items.iter().find(|t| t.order_id == order_id) {
            Some(t) => Ok((t.clone(), Vec::new(), 0)),
            None => Err(AppError::NotFound(format!("order {order_id}"))),
        }
    }
    fn get_weekly_spent(&self, _customer_mdoc: i32, week_start: NaiveDateTime) -> Result<i32, AppError> {
        self.week_starts.borrow_mut().push(week_start);
        Ok(0)
    }
    fn get(&self, order_id: i32) -> Result<Option<CustomerTransaction>, AppError> {
        Ok(self.items.iter().find(|t| t.order_id == order_id).cloned())
    }
    fn get_sales_details_data(&self, _start: NaiveDateTime, _end: NaiveDateTime) -> Result<Vec<SalesReportDetails>, AppError> {
        Ok(Vec::new())
    }
}

#[derive(Default, Clone)]
pub struct MockCustomerTxDetailRepo {
    items: Vec<CustomerTxDetail>,
}

impl MockCustomerTxDetailRepo {
    pub fn new() -> Self {
        Self::default()
    }
}

impl CustomerTxDetailRepoTrait for MockCustomerTxDetailRepo {
    fn create(&mut self, detail: &CustomerTxDetail) -> Result<(), AppError> {
        self.items.push(detail.clone());
        Ok(())
    }
    fn create_with_tx(&mut self, detail: &CustomerTxDetail) -> Result<i32, AppError> {
        let id = self.items.len() as i32 + 1;
        let mut stored = detail.clone();
        stored.detail_id = id;
        self.items.push(stored);
        Ok(id)
    }
    fn list_by_order(&self, order_id: i32) -> Result<Vec<(CustomerTxDetail, String)>, AppError> {
        Ok(self
            .items
            .iter()
            .filter(|d| d.order_id == order_id)
            .map(|d| (d.clone(), String::new()))
            .collect())
    }
    fn sales_by_category(&self, _start: NaiveDateTime, _end: NaiveDateTime) -> Result<Vec<ProductSalesByCategory>, AppError> {
        Ok(Vec::new())
    }
    fn get_sales_totals(&self, _start: NaiveDateTime, _end: NaiveDateTime) -> Result<SalesTotals, AppError> {
        Ok(SalesTotals {
            total_quantity: self.items.iter().map(|d| d.quantity).sum(),
            total_value: self.items.iter().map(|d| d.quantity * d.price).sum(),
        })
    }
}

#[derive(Default, Clone)]
pub struct MockPriceAdjustmentRepo {
    items: Vec<PriceAdjustment>,
}

impl MockPriceAdjustmentRepo {
    pub fn new() -> Self {
        Self::default()
    }
}

impl PriceAdjustmentRepoTrait for MockPriceAdjustmentRepo {
    fn create_with_tx(&mut self, adj: &PriceAdjustment) -> Result<i32, AppError> {
        let id = self.items.len() as i32 + 1;
        let mut stored = adj.clone();
        stored.id = id;
        self.items.push(stored);
        Ok(id)
    }
    fn get_by_id(&self, id: i32) -> Result<Option<PriceAdjustment>, AppError> {
        Ok(self.items.iter().find(|a| a.id == id).cloned())
    }
    fn list(&self) -> Result<Vec<PriceAdjustment>, AppError> {
        Ok(self.items.clone())
    }
    fn search(
        &self,
        limit: i32,
        offset: i32,
        _date: Option<String>,
        _search: Option<String>,
    ) -> Result<Vec<(PriceAdjustment, String, String)>, AppError> {
        Ok(self
            .items
            .iter()
            .skip(offset.max(0) as usize)
            .take(limit.max(0) as usize)
            .map(|a| (a.clone(), String::new(), String::new()))
            .collect())
    }
    fn count(&self, _date: Option<String>, _search: Option<String>) -> Result<i32, AppError> {
        Ok(self.items.len() as i32)
    }
}

#[derive(Default)]
pub struct MockWeeklyLimitRepo {
    limit: i32,
}

impl MockWeeklyLimitRepo {
    pub fn new() -> Self {
        Self::default()
    }
}

impl WeeklyLimitRepoTrait for MockWeeklyLimitRepo {
    fn get_limit(&self) -> Result<i32, AppError> {
        Ok(self.limit)
    }
    fn set_limit(&mut self, limit: i32) -> Result<(), AppError> {
        self.limit = limit;
        Ok(())
    }
}

#[derive(Default)]
pub struct MockCredRepo {
    hash: Option<String>,
}

impl MockCredRepo {
    pub fn new() -> Self {
        Self::default()
    }
}

impl CredentialRepoTrait for MockCredRepo {
    fn set_password(&mut self, hash: &str) -> Result<(), AppError> {
        self.hash = Some(hash.to_string());
        Ok(())
    }
    fn get_password_hash(&self) -> Result<Option<String>, AppError> {
        Ok(self.hash.clone())
    }
    fn delete_password(&mut self) -> Result<(), AppError> {
        self.hash = None;
        Ok(())
    }
}

/// A storage transaction over in-memory stores: `begin` keeps a copy of
/// the stores, and `rollback`, or a commit told to fail, puts it back.
pub struct MockUnitOfWork<T> {
    saved: Option<T>,
    pub begun: u32,
    pub committed: u32,
    pub rolled_back: u32,
    pub fail_commit: bool,
}

impl<T> MockUnitOfWork<T> {
    pub fn new() -> Self {
        MockUnitOfWork { saved: None, begun: 0, committed: 0, rolled_back: 0, fail_commit: false }
    }
}

impl<V, S, D> SaleUnitOfWork<V, S, D> for MockUnitOfWork<(V, S, D)>
where
    V: InventoryTransactionRepoTrait + Clone,
    S: CustomerTransactionRepoTrait + Clone,
    D: CustomerTxDetailRepoTrait + Clone,
{
    fn begin(&mut self, inv: &V, orders: &S, lines: &D) -> Result<(), AppError> {
        self.begun += 1;
        self.saved = Some((inv.clone(), orders.clone(), lines.clone()));
        Ok(())
    }
    fn commit(&mut self, inv: &mut V, orders: &mut S, lines: &mut D) -> Result<(), AppError> {
        let saved = self.saved.take();
        if self.fail_commit {
            if let Some((a, b, c)) = saved {
                *inv = a;
                *orders = b;
                *lines = c;
            }
            return Err(AppError::Db("commit failed".to_string()));
        }
        self.committed += 1;
        Ok(())
    }
    fn rollback(&mut self, inv: &mut V, orders: &mut S, lines: &mut D) {
        self.rolled_back += 1;
        if let Some((a, b, c)) = self.saved.take() {
            *inv = a;
            *orders = b;
            *lines = c;
        }
    }
}

impl<P, A> PriceUnitOfWork<P, A> for MockUnitOfWork<(P, A)>
where
    P: ProductRepoTrait + Clone,
    A: PriceAdjustmentRepoTrait + Clone,
{
    fn begin(&mut self, products: &P, adjustments: &A) -> Result<(), AppError> {
        self.begun += 1;
        self.saved = Some((products.clone(), adjustments.clone()));
        Ok(())
    }
    fn commit(&mut self, products: &mut P, adjustments: &mut A) -> Result<(), AppError> {
        let saved = self.saved.take();
        if self.fail_commit {
            if let Some((p, a)) = saved {
                *products = p;
                *adjustments = a;
            }
            return Err(AppError::Db("commit failed".to_string()));
        }
        self.committed += 1;
        Ok(())
    }
    fn rollback(&mut self, products: &mut P, adjustments: &mut A) {
        self.rolled_back += 1;
        if let Some((p, a)) = self.saved.take() {
            *products = p;
            *adjustments = a;
        }
    }
}
