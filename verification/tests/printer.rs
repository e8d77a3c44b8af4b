#![allow(dead_code)]

use annex_pos::datetime::{NaiveDate, NaiveDateTime, NaiveTime};
use annex_pos::error::AppError;
use annex_pos::models::{
    Category, ClubImport, ClubTransaction, ClubTransactionWithTotal, Customer, CustomerTransaction,
    CustomerTxDetail, InventoryTransaction, Operator, PeriodTotals, PriceAdjustment, Product,
    ProductInventoryReport, ProductInventoryTotals, ProductSalesByCategory, SalesReportDetails, SalesTotals,
    TransactionType,
};
use annex_pos::repos::{
    CategoryRepoTrait, ClubImportRepoTrait, ClubTransactionRepoTrait, CredentialRepoTrait,
    CustomerRepoTrait, CustomerTransactionRepoTrait, CustomerTxDetailRepoTrait,
    InventoryTransactionRepoTrait, OperatorRepoTrait, PriceAdjustmentRepoTrait, ProductRepoTrait,
    PriceUnitOfWork, SaleDetailsTuple, SaleUnitOfWork, WeeklyLimitRepoTrait,
};

/// A fixed moment for records that need one.
fn fixed_time() -> NaiveDateTime {
    NaiveDate::from_ymd_opt(2025, 1, 1).unwrap().and_hms_opt(12, 0, 0).unwrap()
}
use annex_pos::printer::{printer_names, PrinterUseCases};

#[test]
fn printer_names_are_the_non_blank_lines() {
    assert_eq!(printer_names("HP LaserJet\r\nZebra ZD410\r\n"), vec!["HP LaserJet".to_string(), "Zebra ZD410".to_string()]);
    assert_eq!(printer_names("A\n\n   \nB"), vec!["A".to_string(), "B".to_string()]);
    assert!(printer_names("").is_empty());
    assert!(printer_names("\n\r\n").is_empty());
    assert_eq!(printer_names(" spaced name \n"), vec![" spaced name ".to_string()]);
    let listing = "One\r\nTwo\n\nThree\r";
    let expected: Vec<String> = listing.lines().map(str::to_string).filter(|l| !l.trim().is_empty()).collect();
    assert_eq!(printer_names(listing), expected);
}

fn printer_uc() -> PrinterUseCases<
    MockCustomerRepo,
    MockProductRepo,
    MockCustomerTransactionRepo,
    MockCustomerTxDetailRepo,
    MockClubImportRepo,
    MockClubTransactionRepo,
> {
    PrinterUseCases::new(
        MockCustomerRepo::new(),
        MockProductRepo::new(),
        MockCustomerTransactionRepo::new(),
        MockCustomerTxDetailRepo::new(),
        MockClubImportRepo::new(),
        MockClubTransactionRepo::new(),
    )
}

#[test]
fn club_import_report_of_an_unknown_import_is_not_found() {
    let uc = printer_uc();
    let when = NaiveDate::from_ymd_opt(2025, 1, 1).unwrap().and_hms_opt(0, 0, 0).unwrap();
    match uc.club_import_data(9, when) {
        Err(AppError::NotFound(m)) => assert_eq!(m, "Import not found"),
        other => panic!("unexpected {:?}", other.map(|_| ())),
    }
}

#[test]
fn club_import_report_rows_carry_their_running_totals() {
    let mut uc = printer_uc();
    let when = NaiveDate::from_ymd_opt(2025, 1, 2).unwrap().and_hms_opt(0, 0, 0).unwrap();
    uc.club_import_repo
        .create(&ClubImport { id: 3, date: when, activity_from: when, activity_to: when, source_file: "s.pdf".to_string() })
        .unwrap();
    for amount in [1000, -300] {
        uc.club_tx_repo
            .create(&ClubTransaction {
                id: 0,
                import_id: 3,
                entity_name: "X".to_string(),
                mdoc: None,
                tx_type: TransactionType::Deposit,
                amount,
                date: when,
            })
            .unwrap();
    }
    let (imp, rows, balances, periods) = uc.club_import_data(3, when).unwrap();
    assert_eq!(imp.id, 3);
    assert_eq!(rows.iter().map(|r| (r.tx.amount, r.running_total)).collect::<Vec<_>>(), vec![(1000, 1000), (-300, 700)]);
    assert!(rows.iter().all(|r| r.running_total == r.tx.running_total));
    assert_eq!(balances, 0);
    assert_eq!((periods.period_pos_sum, periods.period_neg_sum), (1000, -300));
}

#[test]
fn catalog_and_balance_reports_read_the_stores() {
    let mut uc = printer_uc();
    uc.product_repo
        .create(&Product {
            upc: "12345678".to_string(),
            desc: "Tea".to_string(),
            category: "Drinks".to_string(),
            price: 250,
            updated: None,
            added: None,
            deleted: None,
        })
        .unwrap();
    assert_eq!(uc.product_catalog_data().unwrap().len(), 1);
    let (rows, _totals, balances) = uc.prod_inv_rpt_data().unwrap();
    assert_eq!(rows.len(), 1);
    assert_eq!(balances, 0);
    let (accounts, total) = uc.cust_bal_rpt_data().unwrap();
    assert!(accounts.is_empty());
    assert_eq!(total, 0);
}
#[derive(Default)]
pub struct MockOperatorRepo {
    items: Vec<Operator>,
}

impl MockOperatorRepo {
    pub fn new() -> Self {
        Self::default()
    }
}

impl OperatorRepoTrait for MockOperatorRepo {
    fn get_by_mdoc(&self, mdoc: i32) -> Result<Option<Operator>, AppError> {
        Ok(self.items.iter().find(|o| o.mdoc == mdoc).cloned())
    }
    fn create(&mut self, operator: &Operator) -> Result<(), AppError> {
        self.items.push(operator.clone());
        Ok(())
    }
    fn update_by_mdoc(&mut self, operator: &Operator) -> Result<(), AppError> {
        for o in self.items.iter_mut() {
            if o.mdoc == operator.mdoc {
                *o = operator.clone();
            }
        }
        Ok(())
    }
    fn list(&self) -> Result<Vec<Operator>, AppError> {
        Ok(self.items.clone())
    }
}

#[derive(Default, Clone)]
pub struct MockProductRepo {
    items: Vec<Product>,
}

impl MockProductRepo {
    pub fn new() -> Self {
        Self::default()
    }
}

impl ProductRepoTrait for MockProductRepo {
    fn get_by_upc(&self, upc: String) -> Result<Option<Product>, AppError> {
        Ok(self.items.iter().find(|p| p.upc == upc).cloned())
    }
    fn create(&mut self, product: &Product) -> Result<(), AppError> {
        self.items.push(product.clone());
        Ok(())
    }
    fn update_by_upc(&mut self, product: &Product) -> Result<(), AppError> {
        for p in self.items.iter_mut() {
            if p.upc == product.upc {
                *p = product.clone();
            }
        }
        Ok(())
    }
    fn list(&self) -> Result<Vec<Product>, AppError> {
        Ok(self.items.clone())
    }
    fn search(
        &self,
        desc_like: Option<String>,
        category: Option<String>,
        limit: i32,
        offset: i32,
    ) -> Result<Vec<(Product, i32)>, AppError> {
        let matching: Vec<(Product, i32)> = self
            .items
            .iter()
            .filter(|p| desc_like.as_ref().map_or(true, |d| p.desc.contains(d.as_str())))
            .filter(|p| category.as_ref().map_or(true, |c| &p.category == c))
            .map(|p| (p.clone(), 0))
            .collect();
        Ok(matching
            .into_iter()
            .skip(offset.max(0) as usize)
            .take(limit.max(0) as usize)
            .collect())
    }
    fn count(&self, desc_like: Option<String>, category: Option<String>) -> Result<i32, AppError> {
        Ok(self.search(desc_like, category, i32::MAX, 0)?.len() as i32)
    }
    fn get_price(&self, upc: String) -> Result<i32, AppError> {
        match self.items.iter().find(|p| p.upc == upc) {
            Some(p) => Ok(p.price),
            None => Err(AppError::NotFound(format!("product {upc}"))),
        }
    }
    fn report_by_category(&self) -> Result<Vec<ProductInventoryReport>, AppError> {
        Ok(self
            .items
            .iter()
            .map(|p| ProductInventoryReport {
                category: p.category.clone(),
                upc: Some(p.upc.clone()),
                name: Some(p.desc.clone()),
                price: Some(p.price),
                quantity: 0,
                total: 0,
                is_summary: false,
            })
            .collect())
    }
    fn get_inventory_totals(&self) -> Result<ProductInventoryTotals, AppError> {
        Ok(ProductInventoryTotals { total_quantity: 0, total_value: 0 })
    }
    fn update_by_upc_with_tx(&mut self, product: &Product) -> Result<(), AppError> {
        self.update_by_upc(product)
    }
}

#[derive(Default)]
pub struct MockCategoryRepo {
    items: Vec<Category>,
}

impl MockCategoryRepo {
    pub fn new() -> Self {
        Self::default()
    }
}

impl CategoryRepoTrait for MockCategoryRepo {
    fn list_active(&self) -> Result<Vec<Category>, AppError> {
        Ok(self.items.iter().filter(|c| c.deleted.is_none()).cloned().collect())
    }
    fn get_by_name(&self, name: &str) -> Result<Option<Category>, AppError> {
        Ok(self.items.iter().find(|c| c.name == name).cloned())
    }
    fn create(&mut self, name: String) -> Result<(), AppError> {
        let id = self.items.len() as i32 + 1;
        self.items.push(Category { id, name, deleted: None });
        Ok(())
    }
    fn soft_delete(&mut self, id: i32) -> Result<(), AppError> {
        let now = fixed_time();
        for c in self.items.iter_mut() {
            if c.id == id {
                c.deleted = Some(now);
            }
        }
        Ok(())
    }
    fn undelete(&mut self, id: i32) -> Result<(), AppError> {
        for c in self.items.iter_mut() {
            if c.id == id {
                c.deleted = None;
            }
        }
        Ok(())
    }
    fn list(&self) -> Result<Vec<Category>, AppError> {
        Ok(self.items.clone())
    }
}

#[derive(Default)]
pub struct MockCustomerRepo {
    items: Vec<Customer>,
}

impl MockCustomerRepo {
    pub fn new() -> Self {
        Self::default()
    }
}

impl CustomerRepoTrait for MockCustomerRepo {
    fn get_by_mdoc(&self, mdoc: i32) -> Result<Option<Customer>, AppError> {
        Ok(self.items.iter().find(|c| c.mdoc == mdoc).cloned())
    }
    fn update(&mut self, customer: &Customer) -> Result<(), AppError> {
        for c in self.items.iter_mut() {
            if c.mdoc == customer.mdoc {
                *c = customer.clone();
            }
        }
        Ok(())
    }
    fn create(&mut self, customer: &Customer) -> Result<(), AppError> {
        self.items.push(customer.clone());
        Ok(())
    }
    fn list(&self) -> Result<Vec<Customer>, AppError> {
        Ok(self.items.clone())
    }
    fn search(&self, limit: i32, offset: i32, search: Option<String>) -> Result<Vec<(Customer, i32)>, AppError> {
        Ok(self
            .items
            .iter()
            .filter(|c| search.as_ref().map_or(true, |s| c.name.contains(s.as_str())))
            .skip(offset.max(0) as usize)
            .take(limit.max(0) as usize)
            .map(|c| (c.clone(), 0))
            .collect())
    }
    fn count(&self, search: Option<String>) -> Result<i32, AppError> {
        Ok(self.search(i32::MAX, 0, search)?.len() as i32)
    }
    fn sum_all_balances(&self) -> Result<i32, AppError> {
        Ok(0)
    }
    fn list_customer_accounts(&self) -> Result<Vec<(Customer, i32)>, AppError> {
        Ok(self.items.iter().map(|c| (c.clone(), 0)).collect())
    }
}

#[derive(Default)]
pub struct MockClubTransactionRepo {
    items: Vec<ClubTransaction>,
}

impl MockClubTransactionRepo {
    pub fn new() -> Self {
        Self::default()
    }
}

impl ClubTransactionRepoTrait for MockClubTransactionRepo {
    fn create(&mut self, tx: &ClubTransaction) -> Result<(), AppError> {
        self.items.push(tx.clone());
        Ok(())
    }
    fn list(&self) -> Result<Vec<ClubTransaction>, AppError> {
        Ok(self.items.clone())
    }
    fn search(
        &self,
        limit: i32,
        offset: i32,
        _date: Option<String>,
        _search: Option<String>,
    ) -> Result<Vec<(ClubTransaction, Option<String>)>, AppError> {
        Ok(self
            .items
            .iter()
            .skip(offset.max(0) as usize)
            .take(limit.max(0) as usize)
            .map(|t| (t.clone(), None))
            .collect())
    }
    fn count(&self, _date: Option<String>, _search: Option<String>) -> Result<i32, AppError> {
        Ok(self.items.len() as i32)
    }
    fn get_account_total(&self) -> Result<i32, AppError> {
        Ok(self.items.iter().map(|t| t.amount).sum())
    }
    fn get_by_import_id_with_total(
        &self,
        import_id: i32,
        _start_date: Option<NaiveDateTime>,
    ) -> Result<Vec<ClubTransactionWithTotal>, AppError> {
        let mut running = 0;
        Ok(self
            .items
            .iter()
            .filter(|t| t.import_id == import_id)
            .map(|t| {
                running += t.amount;
                ClubTransactionWithTotal {
                    id: t.id,
                    import_id: t.import_id,
                    entity_name: t.entity_name.clone(),
                    mdoc: t.mdoc,
                    tx_type: format!("{:?}", t.tx_type),
                    amount: t.amount,
                    date: t.date,
                    running_total: running,
                }
            })
            .collect())
    }
    fn get_period_sums_for_import(&self, import_id: i32) -> Result<PeriodTotals, AppError> {
        let of_import = || self.items.iter().filter(move |t| t.import_id == import_id);
        Ok(PeriodTotals {
            period_pos_sum: of_import().filter(|t| t.amount > 0).map(|t| t.amount).sum(),
            period_neg_sum: of_import().filter(|t| t.amount < 0).map(|t| t.amount).sum(),
        })
    }
}

#[derive(Default)]
pub struct MockClubImportRepo {
    items: Vec<ClubImport>,
}

impl MockClubImportRepo {
    pub fn new() -> Self {
        Self::default()
    }
}

impl ClubImportRepoTrait for MockClubImportRepo {
    fn create(&mut self, import: &ClubImport) -> Result<(), AppError> {
        self.items.push(import.clone());
        Ok(())
    }
    fn list(&self) -> Result<Vec<ClubImport>, AppError> {
        Ok(self.items.clone())
    }
    fn get_by_id(&self, id: i32) -> Result<Option<ClubImport>, AppError> {
        Ok(self.items.iter().find(|i| i.id == id).cloned())
    }
}

#[derive(Default, Clone)]
pub struct MockInventoryTransactionRepo {
    items: Vec<InventoryTransaction>,
}

impl MockInventoryTransactionRepo {
    pub fn new() -> Self {
        Self::default()
    }
}

impl InventoryTransactionRepoTrait for MockInventoryTransactionRepo {
    fn create(&mut self, tx: &InventoryTransaction) -> Result<(), AppError> {
        self.items.push(tx.clone());
        Ok(())
    }
    fn create_with_tx(&mut self, tx: &InventoryTransaction) -> Result<(), AppError> {
        self.create(tx)
    }
    fn list(&self) -> Result<Vec<InventoryTransaction>, AppError> {
        Ok(self.items.clone())
    }
    fn list_for_product(&self, upc: String) -> Result<Vec<InventoryTransaction>, AppError> {
        Ok(self.items.iter().filter(|t| t.upc == upc).cloned().collect())
    }
    fn list_for_customer(&self, customer_mdoc: i32) -> Result<Vec<InventoryTransaction>, AppError> {
        Ok(self.items.iter().filter(|t| t.customer_mdoc == Some(customer_mdoc)).cloned().collect())
    }
    fn search(
        &self,
        limit: i32,
        offset: i32,
        _date: Option<String>,
        _search: Option<String>,
    ) -> Result<Vec<(InventoryTransaction, String, String)>, AppError> {
        Ok(self
            .items
            .iter()
            .skip(offset.max(0) as usize)
            .take(limit.max(0) as usize)
            .map(|t| (t.clone(), String::new(), String::new()))
            .collect())
    }
    fn count(&self, _date: Option<String>, _search: Option<String>) -> Result<i32, AppError> {
        Ok(self.items.len() as i32)
    }
    fn list_for_operator(&self, operator_mdoc: i32) -> Result<Vec<InventoryTransaction>, AppError> {
        Ok(self.items.iter().filter(|t| t.operator_mdoc == operator_mdoc).cloned().collect())
    }
    fn list_for_today(&self) -> Result<Vec<InventoryTransaction>, AppError> {
        Ok(Vec::new())
    }
}

#[derive(Default, Clone)]
pub struct MockCustomerTransactionRepo {
    items: Vec<CustomerTransaction>,
    /// The week starts that weekly spending was asked for, in order.
    pub week_starts: std::cell::RefCell<Vec<NaiveDateTime>>,
}

impl MockCustomerTransactionRepo {
    pub fn new() -> Self {
        Self::default()
    }
}

impl CustomerTransactionRepoTrait for MockCustomerTransactionRepo {
    fn create(&mut self, tx: &CustomerTransaction) -> Result<(), AppError> {
        self.items.push(tx.clone());
        Ok(())
    }
    fn create_with_tx(&mut self, tx: &CustomerTransaction) -> Result<i32, AppError> {
        let id = self.items.len() as i32 + 1;
        let mut stored = tx.clone();
        stored.order_id = id;
        self.items.push(stored);
        Ok(id)
    }
    fn list(&self) -> Result<Vec<CustomerTransaction>, AppError> {
        Ok(self.items.clone())
    }
    fn search(
        &self,
        limit: i32,
        offset: i32,
        mdoc: Option<i32>,
        _date: Option<String>,
        _search: Option<String>,
    ) -> Result<Vec<(CustomerTransaction, String, i32)>, AppError> {
        Ok(self
            .items
            .iter()
            .filter(|t| mdoc.map_or(true, |m| t.customer_mdoc == m))
            .skip(offset.max(0) as usize)
            .take(limit.max(0) as usize)
            .map(|t| (t.clone(), String::new(), 0))
            .collect())
    }
    fn count(&self, mdoc: Option<i32>, _date: Option<String>, _search: Option<String>) -> Result<i32, AppError> {
        Ok(self.items.iter().filter(|t| mdoc.map_or(true, |m| t.customer_mdoc == m)).count() as i32)
    }
    fn get_with_details_and_balance(&self, order_id: i32) -> Result<SaleDetailsTuple, AppError> {
        match self.items.iter().find(|t| t.order_id == order_id) {
            Some(t) => Ok((t.clone(), Vec::new(), 0)),
            None => Err(AppError::NotFound(format!("order {order_id}"))),
        }
    }
    fn get_weekly_spent(&self, _customer_mdoc: i32, week_start: NaiveDateTime) -> Result<i32, AppError> {
        self.week_starts.borrow_mut().push(week_start);
        Ok(0)
    }
    fn get(&self, order_id: i32) -> Result<Option<CustomerTransaction>, AppError> {
        Ok(self.items.iter().find(|t| t.order_id == order_id).cloned())
    }
    fn get_sales_details_data(&self, _start: NaiveDateTime, _end: NaiveDateTime) -> Result<Vec<SalesReportDetails>, AppError> {
        Ok(Vec::new())
    }
}

#[derive(Default, Clone)]
pub struct MockCustomerTxDetailRepo {
    items: Vec<CustomerTxDetail>,
}

impl MockCustomerTxDetailRepo {
    pub fn new() -> Self {
        Self::default()
    }
}

impl CustomerTxDetailRepoTrait for MockCustomerTxDetailRepo {
    fn create(&mut self, detail: &CustomerTxDetail) -> Result<(), AppError> {
        self.items.push(detail.clone());
        Ok(())
    }
    fn create_with_tx(&mut self, detail: &CustomerTxDetail) -> Result<i32, AppError> {
        let id = self.items.len() as i32 + 1;
        let mut stored = detail.clone();
        stored.detail_id = id;
        self.items.push(stored);
        Ok(id)
    }
    fn list_by_order(&self, order_id: i32) -> Result<Vec<(CustomerTxDetail, String)>, AppError> {
        Ok(self
            .items
            .iter()
            .filter(|d| d.order_id == order_id)
            .map(|d| (d.clone(), String::new()))
            .collect())
    }
    fn sales_by_category(&self, _start: NaiveDateTime, _end: NaiveDateTime) -> Result<Vec<ProductSalesByCategory>, AppError> {
        Ok(Vec::new())
    }
    fn get_sales_totals(&self, _start: NaiveDateTime, _end: NaiveDateTime) -> Result<SalesTotals, AppError> {
        Ok(SalesTotals {
            total_quantity: self.items.iter().map(|d| d.quantity).sum(),
            total_value: self.items.iter().map(|d| d.quantity * d.price).sum(),
        })
    }
}

#[derive(Default, Clone)]
pub struct MockPriceAdjustmentRepo {
    items: Vec<PriceAdjustment>,
}

impl MockPriceAdjustmentRepo {
    pub fn new() -> Self {
        Self::default()
    }
}

impl PriceAdjustmentRepoTrait for MockPriceAdjustmentRepo {
    fn create_with_tx(&mut self, adj: &PriceAdjustment) -> Result<i32, AppError> {
        let id = self.items.len() as i32 + 1;
        let mut stored = adj.clone();
        stored.id = id;
        self.items.push(stored);
        Ok(id)
    }
    fn get_by_id(&self, id: i32) -> Result<Option<PriceAdjustment>, AppError> {
        Ok(self.items.iter().find(|a| a.id == id).cloned())
    }
    fn list(&self) -> Result<Vec<PriceAdjustment>, AppError> {
        Ok(self.items.clone())
    }
    fn search(
        &self,
        limit: i32,
        offset: i32,
        _date: Option<String>,
        _search: Option<String>,
    ) -> Result<Vec<(PriceAdjustment, String, String)>, AppError> {
        Ok(self
            .items
            .iter()
            .skip(offset.max(0) as usize)
            .take(limit.max(0) as usize)
            .map(|a| (a.clone(), String::new(), String::new()))
            .collect())
    }
    fn count(&self, _date: Option<String>, _search: Option<String>) -> Result<i32, AppError> {
        Ok(self.items.len() as i32)
    }
}

#[derive(Default)]
pub struct MockWeeklyLimitRepo {
    limit: i32,
}

impl MockWeeklyLimitRepo {
    pub fn new() -> Self {
        Self::default()
    }
}

impl WeeklyLimitRepoTrait for MockWeeklyLimitRepo {
    fn get_limit(&self) -> Result<i32, AppError> {
        Ok(self.limit)
    }
    fn set_limit(&mut self, limit: i32) -> Result<(), AppError> {
        self.limit = limit;
        Ok(())
    }
}

#[derive(Default)]
pub struct MockCredRepo {
    hash: Option<String>,
}

impl MockCredRepo {
    pub fn new() -> Self {
        Self::default()
    }
}

impl CredentialRepoTrait for MockCredRepo {
    fn set_password(&mut self, hash: &str) -> Result<(), AppError> {
        self.hash = Some(hash.to_string());
        Ok(())
    }
    fn get_password_hash(&self) -> Result<Option<String>, AppError> {
        Ok(self.hash.clone())
    }
    fn delete_password(&mut self) -> Result<(), AppError> {
        self.hash = None;
        Ok(())
    }
}

/// A storage transaction over in-memory stores: `begin` keeps a copy of
/// the stores, and `rollback`, or a commit told to fail, puts it back.
pub struct MockUnitOfWork<T> {
    saved: Option<T>,
    pub begun: u32,
    pub committed: u32,
    pub rolled_back: u32,
    pub fail_commit: bool,
}

impl<T> MockUnitOfWork<T> {
    pub fn new() -> Self {
        MockUnitOfWork { saved: None, begun: 0, committed: 0, rolled_back: 0, fail_commit: false }
    }
}

impl<V, S, D> SaleUnitOfWork<V, S, D> for MockUnitOfWork<(V, S, D)>
where
    V: InventoryTransactionRepoTrait + Clone,
    S: CustomerTransactionRepoTrait + Clone,
    D: CustomerTxDetailRepoTrait + Clone,
{
    fn begin(&mut self, inv: &V, orders: &S, lines: &D) -> Result<(), AppError> {
        self.begun += 1;
        self.saved = Some((inv.clone(), orders.clone(), lines.clone()));
        Ok(())
    }
    fn commit(&mut self, inv: &mut V, orders: &mut S, lines: &mut D) -> Result<(), AppError> {
        let saved = self.saved.take();
        if self.fail_commit {
            if let Some((a, b, c)) = saved {
                *inv = a;
                *orders = b;
                *lines = c;
            }
            return Err(AppError::Db("commit failed".to_string()));
        }
        self.committed += 1;
        Ok(())
    }
    fn rollback(&mut self, inv: &mut V, orders: &mut S, lines: &mut D) {
        self.rolled_back += 1;
        if let Some((a, b, c)) = self.saved.take() {
            *inv = a;
            *orders = b;
            *lines = c;
        }
    }
}

impl<P, A> PriceUnitOfWork<P, A> for MockUnitOfWork<(P, A)>
where
    P: ProductRepoTrait + Clone,
    A: PriceAdjustmentRepoTrait + Clone,
{
    fn begin(&mut self, products: &P, adjustments: &A) -> Result<(), AppError> {
        self.begun += 1;
        self.saved = Some((products.clone(), adjustments.clone()));
        Ok(())
    }
    fn commit(&mut self, products: &mut P, adjustments: &mut A) -> Result<(), AppError> {
        let saved = self.saved.take();
        if self.fail_commit {
            if let Some((p, a)) = saved {
                *products = p;
                *adjustments = a;
            }
            return Err(AppError::Db("commit failed".to_string()));
        }
        self.committed += 1;
        Ok(())
    }
    fn rollback(&mut self, products: &mut P, adjustments: &mut A) {
        self.rolled_back += 1;
        if let Some((p, a)) = self.saved.take() {
            *products = p;
            *adjustments = a;
        }
    }
}
