//! The repositories the use cases read and write. Each is a trait that a
//! storage layer implements; the contracts speak of an abstract view of the
//! stored rows. A call that fails leaves the rows as they were.
//!
//! The abstract view of a store is a spec method of its trait. The stores
//! the application runs on (SQLite, and the in-memory stores of the tests)
//! are written outside the verified crate, where a spec method cannot be
//! defined; the default body `arbitrary()` is there only so that they still
//! implement the traits. For them the view stands for the rows they hold,
//! and that they meet these contracts is trusted, not proved; the tests
//! check it on concrete calls. What the use cases are proved to do holds of
//! every store that meets the contracts.
use vstd::prelude::*;
use crate::datetime::NaiveDateTime;
use crate::error::AppError;
use crate::models::{
    Category, CategoryView, ClubImport, ClubImportView, ClubTransaction, ClubTransactionView,
    Customer, CustomerTransaction, CustomerTransactionView, CustomerTxDetail, CustomerTxDetailView,
    CustomerView, InventoryTransaction, InventoryTransactionView, Operator, OperatorView,
    PeriodTotals, PriceAdjustment, PriceAdjustmentView, Product, ProductInventoryReport,
    ProductInventoryTotals, ProductSalesByCategory, ProductView, SalesReportDetails, SalesTotals,
    ClubTransactionWithTotal,
};

verus! {

/// The first operator with the given MDOC number.
pub open spec fn operator_with_mdoc(ops: Seq<OperatorView>, mdoc: i32) -> Option<OperatorView>
    decreases ops.len(),
{
    if ops.len() == 0 {
        None
    } else if ops[0].mdoc == mdoc {
        Some(ops[0])
    } else {
        operator_with_mdoc(ops.drop_first(), mdoc)
    }
}

/// The operators with `op` in place of every operator with its MDOC number.
pub open spec fn operators_updated(ops: Seq<OperatorView>, op: OperatorView) -> Seq<OperatorView> {
    ops.map_values(|o: OperatorView| if o.mdoc == op.mdoc { op } else { o })
}

/// Stored operators.
pub trait OperatorRepoTrait {
    closed spec fn operators(&self) -> Seq<OperatorView> {
        arbitrary()
    }

    /// What was handed to `create`, in order, each with whether the insert
    /// succeeded; every call adds one entry, whatever it returns.
    closed spec fn create_log(&self) -> Seq<(OperatorView, bool)> {
        arbitrary()
    }

    fn get_by_mdoc(&self, mdoc: i32) -> (r: Result<Option<Operator>, AppError>)
        ensures
            r matches Ok(o) ==> o.deep_view() == operator_with_mdoc(self.operators(), mdoc),
    ;

    fn create(&mut self, operator: &Operator) -> (r: Result<(), AppError>)
        ensures
            final(self).create_log() == old(self).create_log().push((operator.deep_view(), r is Ok)),
            final(self).operators() == (if r is Ok {
                old(self).operators().push(operator.deep_view())
            } else {
                old(self).operators()
            }),
    ;

    fn update_by_mdoc(&mut self, operator: &Operator) -> (r: Result<(), AppError>)
        ensures
            final(self).operators() == (if r is Ok {
                operators_updated(old(self).operators(), operator.deep_view())
            } else {
                old(self).operators()
            }),
    ;

    fn list(&self) -> (r: Result<Vec<Operator>, AppError>)
        ensures
            r matches Ok(v) ==> v.deep_view() == self.operators(),
    ;
}

/// The first product with the given UPC.
pub open spec fn product_with_upc(ps: Seq<ProductView>, upc: Seq<char>) -> Option<ProductView>
    decreases ps.len(),
{
    if ps.len() == 0 {
        None
    } else if ps[0].upc == upc {
        Some(ps[0])
    } else {
        product_with_upc(ps.drop_first(), upc)
    }
}

/// The products with `p` in place of every product with its UPC.
pub open spec fn products_updated(ps: Seq<ProductView>, p: ProductView) -> Seq<ProductView> {
    ps.map_values(|q: ProductView| if q.upc == p.upc { p } else { q })
}

/// Stored products.
pub trait ProductRepoTrait {
    /// The inventory report's lines, by category, with a summary line per category.
    closed spec fn inventory_rows(&self) -> Seq<ProductInventoryReport> {
        arbitrary()
    }

    /// The inventory report's totals.
    closed spec fn inventory_totals(&self) -> ProductInventoryTotals {
        arbitrary()
    }

    closed spec fn products(&self) -> Seq<ProductView> {
        arbitrary()
    }

    /// What was handed to `create`, in order, each with whether the insert
    /// succeeded; every call adds one entry, whatever it returns.
    closed spec fn create_log(&self) -> Seq<(ProductView, bool)> {
        arbitrary()
    }

    /// What a search for products returns, as the storage layer orders and pages it.
    closed spec fn search_results(
        &self,
        desc_like: Option<String>,
        category: Option<String>,
        limit: i32,
        offset: i32,
    ) -> Seq<(Product, i32)> {
        arbitrary()
    }

    /// How many products a search matches.
    closed spec fn count_results(&self, desc_like: Option<String>, category: Option<String>) -> i32 {
        arbitrary()
    }

    fn get_by_upc(&self, upc: String) -> (r: Result<Option<Product>, AppError>)
        ensures
            r matches Ok(o) ==> o.deep_view() == product_with_upc(self.products(), upc@),
    ;

    fn create(&mut self, product: &Product) -> (r: Result<(), AppError>)
        ensures
            final(self).create_log() == old(self).create_log().push((product.deep_view(), r is Ok)),
            final(self).products() == (if r is Ok {
                old(self).products().push(product.deep_view())
            } else {
                old(self).products()
            }),
    ;

    fn update_by_upc(&mut self, product: &Product) -> (r: Result<(), AppError>)
        ensures
            final(self).products() == (if r is Ok {
                products_updated(old(self).products(), product.deep_view())
            } else {
                old(self).products()
            }),
    ;

    /// Updates a product inside the open storage transaction.
    fn update_by_upc_with_tx(&mut self, product: &Product) -> (r: Result<(), AppError>)
        ensures
            final(self).products() == (if r is Ok {
                products_updated(old(self).products(), product.deep_view())
            } else {
                old(self).products()
            }),
    ;

    fn list(&self) -> (r: Result<Vec<Product>, AppError>)
        ensures
            r matches Ok(v) ==> v.deep_view() == self.products(),
    ;

    fn search(
        &self,
        desc_like: Option<String>,
        category: Option<String>,
        limit: i32,
        offset: i32,
    ) -> (r: Result<Vec<(Product, i32)>, AppError>)
        ensures
            r matches Ok(v) ==> v@ == self.search_results(desc_like, category, limit, offset),
    ;

    fn count(&self, desc_like: Option<String>, category: Option<String>) -> (r: Result<i32, AppError>)
        ensures
            r matches Ok(n) ==> n == self.count_results(desc_like, category),
    ;

    /// The price of the product with a UPC; a UPC that no product has is an error.
    fn get_price(&self, upc: String) -> (r: Result<i32, AppError>)
        ensures
            r matches Ok(n) ==> (product_with_upc(self.products(), upc@) matches Some(p) && n == p.price),
    ;

    fn report_by_category(&self) -> (r: Result<Vec<ProductInventoryReport>, AppError>)
        ensures
            r matches Ok(v) ==> v@ == self.inventory_rows(),
    ;

    fn get_inventory_totals(&self) -> (r: Result<ProductInventoryTotals, AppError>)
        ensures
            r matches Ok(t) ==> t == self.inventory_totals(),
    ;
}

/// The categories that are not deleted, in stored order.
pub open spec fn active_categories(cs: Seq<CategoryView>) -> Seq<CategoryView> {
    cs.filter(|c: CategoryView| c.deleted is None)
}

/// The first category with the given name.
pub open spec fn category_named(cs: Seq<CategoryView>, name: Seq<char>) -> Option<CategoryView>
    decreases cs.len(),
{
    if cs.len() == 0 {
        None
    } else if cs[0].name == name {
        Some(cs[0])
    } else {
        category_named(cs.drop_first(), name)
    }
}

/// Whether `after` is `before` with the categories of the given id marked
/// deleted (`deleted` true) or restored (`deleted` false), and nothing else changed.
pub open spec fn categories_marked(before: Seq<CategoryView>, after: Seq<CategoryView>, id: i32, deleted: bool) -> bool {
    &&& after.len() == before.len()
    &&& forall|i: int|
        0 <= i < before.len() ==> if before[i].id == id {
            &&& (#[trigger] after[i]).id == id
            &&& after[i].name == before[i].name
            &&& (after[i].deleted is Some) == deleted
        } else {
            after[i] == before[i]
        }
}

/// Stored categories.
pub trait CategoryRepoTrait {
    closed spec fn categories(&self) -> Seq<CategoryView> {
        arbitrary()
    }

    /// What was handed to `create`, in order, each with whether the insert
    /// succeeded; every call adds one entry, whatever it returns.
    closed spec fn create_log(&self) -> Seq<(Seq<char>, bool)> {
        arbitrary()
    }

    fn list_active(&self) -> (r: Result<Vec<Category>, AppError>)
        ensures
            r matches Ok(v) ==> v.deep_view() == active_categories(self.categories()),
    ;

    fn get_by_name(&self, name: &str) -> (r: Result<Option<Category>, AppError>)
        ensures
            r matches Ok(o) ==> o.deep_view() == category_named(self.categories(), name@),
    ;

    /// Stores a new, active category; the storage layer picks its id.
    fn create(&mut self, name: String) -> (r: Result<(), AppError>)
        ensures
            final(self).create_log() == old(self).create_log().push((name@, r is Ok)),
            r is Ok ==> {
                &&& final(self).categories().len() == old(self).categories().len() + 1
                &&& final(self).categories().drop_last() == old(self).categories()
                &&& final(self).categories().last().name == name@
                &&& final(self).categories().last().deleted is None
            },
            r is Err ==> final(self).categories() == old(self).categories(),
    ;

    fn soft_delete(&mut self, id: i32) -> (r: Result<(), AppError>)
        ensures
            r is Ok ==> categories_marked(old(self).categories(), final(self).categories(), id, true),
            r is Err ==> final(self).categories() == old(self).categories(),
    ;

    fn undelete(&mut self, id: i32) -> (r: Result<(), AppError>)
        ensures
            r is Ok ==> categories_marked(old(self).categories(), final(self).categories(), id, false),
            r is Err ==> final(self).categories() == old(self).categories(),
    ;

    fn list(&self) -> (r: Result<Vec<Category>, AppError>)
        ensures
            r matches Ok(v) ==> v.deep_view() == self.categories(),
    ;
}

/// The first customer with the given MDOC number.
pub open spec fn customer_with_mdoc(cs: Seq<CustomerView>, mdoc: i32) -> Option<CustomerView>
    decreases cs.len(),
{
    if cs.len() == 0 {
        None
    } else if cs[0].mdoc == mdoc {
        Some(cs[0])
    } else {
        customer_with_mdoc(cs.drop_first(), mdoc)
    }
}

/// The customers with `c` in place of every customer with its MDOC number.
pub open spec fn customers_updated(cs: Seq<CustomerView>, c: CustomerView) -> Seq<CustomerView> {
    cs.map_values(|d: CustomerView| if d.mdoc == c.mdoc { c } else { d })
}

/// The sum of the balances of a list of customer accounts.
pub open spec fn balances_sum(accounts: Seq<(Customer, i32)>) -> int
    decreases accounts.len(),
{
    if accounts.len() == 0 {
        0
    } else {
        balances_sum(accounts.drop_last()) + accounts.last().1
    }
}

/// The sum of the amounts of club transactions: the club account's total.
pub open spec fn amounts_total(txs: Seq<ClubTransactionView>) -> int
    decreases txs.len(),
{
    if txs.len() == 0 {
        0
    } else {
        amounts_total(txs.drop_last()) + txs.last().amount
    }
}

/// Stored customers and their account balances.
pub trait CustomerRepoTrait {
    closed spec fn customers(&self) -> Seq<CustomerView> {
        arbitrary()
    }

    /// What was handed to `create`, in order, each with whether the insert
    /// succeeded; every call adds one entry, whatever it returns.
    /// What was handed to `update`, in order, each with whether the update
    /// succeeded; every call adds one entry, whatever it returns.
    closed spec fn update_log(&self) -> Seq<(CustomerView, bool)> {
        arbitrary()
    }

    closed spec fn create_log(&self) -> Seq<(CustomerView, bool)> {
        arbitrary()
    }

    /// A page of customers matching a search, each with its balance.
    closed spec fn search_results(&self, limit: i32, offset: i32, search: Option<String>) -> Seq<(Customer, i32)> {
        arbitrary()
    }

    /// How many customers a search matches.
    closed spec fn count_results(&self, search: Option<String>) -> i32 {
        arbitrary()
    }

    /// The sum of all customers' balances, in cents.
    closed spec fn balances_total(&self) -> i32 {
        arbitrary()
    }

    /// Every customer with their balance.
    closed spec fn accounts(&self) -> Seq<(Customer, i32)> {
        arbitrary()
    }

    fn get_by_mdoc(&self, mdoc: i32) -> (r: Result<Option<Customer>, AppError>)
        ensures
            r matches Ok(o) ==> o.deep_view() == customer_with_mdoc(self.customers(), mdoc),
    ;

    fn update(&mut self, customer: &Customer) -> (r: Result<(), AppError>)
        ensures
            final(self).update_log() == old(self).update_log().push((customer.deep_view(), r is Ok)),
            final(self).create_log() == old(self).create_log(),
            final(self).customers() == (if r is Ok {
                customers_updated(old(self).customers(), customer.deep_view())
            } else {
                old(self).customers()
            }),
    ;

    fn create(&mut self, customer: &Customer) -> (r: Result<(), AppError>)
        ensures
            final(self).update_log() == old(self).update_log(),
            final(self).create_log() == old(self).create_log().push((customer.deep_view(), r is Ok)),
            final(self).customers() == (if r is Ok {
                old(self).customers().push(customer.deep_view())
            } else {
                old(self).customers()
            }),
    ;

    fn list(&self) -> (r: Result<Vec<Customer>, AppError>)
        ensures
            r matches Ok(v) ==> v.deep_view() == self.customers(),
    ;

    fn search(&self, limit: i32, offset: i32, search: Option<String>) -> (r: Result<Vec<(Customer, i32)>, AppError>)
        ensures
            r matches Ok(v) ==> v@ == self.search_results(limit, offset, search),
    ;

    fn count(&self, search: Option<String>) -> (r: Result<i32, AppError>)
        ensures
            r matches Ok(n) ==> n == self.count_results(search),
    ;

    fn sum_all_balances(&self) -> (r: Result<i32, AppError>)
        ensures
            r matches Ok(n) ==> n == self.balances_total(),
            r matches Ok(n) ==> n == balances_sum(self.accounts()),
            r is Ok ==> self.accounts().len() == self.customers().len(),
    ;

    fn list_customer_accounts(&self) -> (r: Result<Vec<(Customer, i32)>, AppError>)
        ensures
            r matches Ok(v) ==> v@ == self.accounts(),
    ;
}

/// Stored club transactions.
pub trait ClubTransactionRepoTrait {
    /// The club transactions of a statement, from a date on, each with the
    /// running total of the account.
    closed spec fn import_rows(&self, import_id: i32, start_date: Option<NaiveDateTime>) -> Seq<ClubTransactionWithTotal> {
        arbitrary()
    }

    /// The sums of a statement's deposits and of its withdrawals.
    closed spec fn period_totals(&self, import_id: i32) -> PeriodTotals {
        arbitrary()
    }

    closed spec fn transactions(&self) -> Seq<ClubTransactionView> {
        arbitrary()
    }

    /// What was handed to `create`, in order, each with whether the insert
    /// succeeded; every call adds one entry, whatever it returns.
    closed spec fn create_log(&self) -> Seq<(ClubTransactionView, bool)> {
        arbitrary()
    }

    /// A page of club transactions matching a search, each with the customer's name if known.
    closed spec fn search_results(
        &self,
        limit: i32,
        offset: i32,
        date: Option<String>,
        search: Option<String>,
    ) -> Seq<(ClubTransaction, Option<String>)> {
        arbitrary()
    }

    /// How many club transactions a search matches.
    closed spec fn count_results(&self, date: Option<String>, search: Option<String>) -> i32 {
        arbitrary()
    }

    /// The club account's total, in cents.
    closed spec fn account_total(&self) -> i32 {
        arbitrary()
    }

    fn create(&mut self, tx: &ClubTransaction) -> (r: Result<(), AppError>)
        ensures
            final(self).create_log() == old(self).create_log().push((tx.deep_view(), r is Ok)),
            final(self).transactions() == (if r is Ok {
                old(self).transactions().push(tx.deep_view())
            } else {
                old(self).transactions()
            }),
    ;

    fn list(&self) -> (r: Result<Vec<ClubTransaction>, AppError>)
        ensures
            r matches Ok(v) ==> v.deep_view() == self.transactions(),
    ;

    fn search(
        &self,
        limit: i32,
        offset: i32,
        date: Option<String>,
        search: Option<String>,
    ) -> (r: Result<Vec<(ClubTransaction, Option<String>)>, AppError>)
        ensures
            r matches Ok(v) ==> v@ == self.search_results(limit, offset, date, search),
    ;

    fn count(&self, date: Option<String>, search: Option<String>) -> (r: Result<i32, AppError>)
        ensures
            r matches Ok(n) ==> n == self.count_results(date, search),
    ;

    fn get_account_total(&self) -> (r: Result<i32, AppError>)
        ensures
            r matches Ok(n) ==> n == self.account_total(),
            r matches Ok(n) ==> n == amounts_total(self.transactions()),
    ;

    fn get_by_import_id_with_total(
        &self,
        import_id: i32,
        start_date: Option<NaiveDateTime>,
    ) -> (r: Result<Vec<ClubTransactionWithTotal>, AppError>)
        ensures
            r matches Ok(v) ==> v@ == self.import_rows(import_id, start_date),
    ;

    fn get_period_sums_for_import(&self, import_id: i32) -> (r: Result<PeriodTotals, AppError>)
        ensures
            r matches Ok(t) ==> t == self.period_totals(import_id),
    ;
}

/// The first import with the given id.
pub open spec fn import_with_id(imports: Seq<ClubImportView>, id: i32) -> Option<ClubImportView>
    decreases imports.len(),
{
    if imports.len() == 0 {
        None
    } else if imports[0].id == id {
        Some(imports[0])
    } else {
        import_with_id(imports.drop_first(), id)
    }
}

/// The first order with the given id.
pub open spec fn order_with_id(orders: Seq<CustomerTransactionView>, order_id: i32) -> Option<CustomerTransactionView>
    decreases orders.len(),
{
    if orders.len() == 0 {
        None
    } else if orders[0].order_id == order_id {
        Some(orders[0])
    } else {
        order_with_id(orders.drop_first(), order_id)
    }
}

/// Stored club statement imports.
pub trait ClubImportRepoTrait {
    closed spec fn imports(&self) -> Seq<ClubImportView> {
        arbitrary()
    }

    /// What was handed to `create`, in order, each with whether the insert
    /// succeeded; every call adds one entry, whatever it returns.
    closed spec fn create_log(&self) -> Seq<(ClubImportView, bool)> {
        arbitrary()
    }

    fn create(&mut self, import: &ClubImport) -> (r: Result<(), AppError>)
        ensures
            final(self).create_log() == old(self).create_log().push((import.deep_view(), r is Ok)),
            final(self).imports() == (if r is Ok {
                old(self).imports().push(import.deep_view())
            } else {
                old(self).imports()
            }),
    ;

    fn list(&self) -> (r: Result<Vec<ClubImport>, AppError>)
        ensures
            r matches Ok(v) ==> v.deep_view() == self.imports(),
    ;

    fn get_by_id(&self, id: i32) -> (r: Result<Option<ClubImport>, AppError>)
        ensures
            r matches Ok(o) ==> o.deep_view() == import_with_id(self.imports(), id),
    ;
}

/// Stored inventory transactions.
pub trait InventoryTransactionRepoTrait {
    closed spec fn transactions(&self) -> Seq<InventoryTransactionView> {
        arbitrary()
    }

    /// What was handed to `create`, in order, each with whether the insert
    /// succeeded; every call adds one entry, whatever it returns.
    closed spec fn create_log(&self) -> Seq<(InventoryTransactionView, bool)> {
        arbitrary()
    }

    /// A page of inventory transactions matching a search, with the product
    /// description and the operator name.
    closed spec fn search_results(
        &self,
        limit: i32,
        offset: i32,
        date: Option<String>,
        search: Option<String>,
    ) -> Seq<(InventoryTransaction, String, String)> {
        arbitrary()
    }

    /// How many inventory transactions a search matches.
    closed spec fn count_results(&self, date: Option<String>, search: Option<String>) -> i32 {
        arbitrary()
    }

    fn create(&mut self, tx: &InventoryTransaction) -> (r: Result<(), AppError>)
        ensures
            final(self).create_log() == old(self).create_log().push((tx.deep_view(), r is Ok)),
            final(self).transactions() == (if r is Ok {
                old(self).transactions().push(tx.deep_view())
            } else {
                old(self).transactions()
            }),
    ;

    /// Stores a transaction as part of the storage transaction that is open.
    fn create_with_tx(&mut self, tx: &InventoryTransaction) -> (r: Result<(), AppError>)
        ensures
            final(self).transactions() == (if r is Ok {
                old(self).transactions().push(tx.deep_view())
            } else {
                old(self).transactions()
            }),
    ;

    fn list(&self) -> (r: Result<Vec<InventoryTransaction>, AppError>)
        ensures
            r matches Ok(v) ==> v.deep_view() == self.transactions(),
    ;

    fn list_for_product(&self, upc: String) -> (r: Result<Vec<InventoryTransaction>, AppError>)
        ensures
            r matches Ok(v) ==> v.deep_view() == self.transactions().filter(|t: InventoryTransactionView| t.upc == upc@),
    ;

    fn list_for_customer(&self, customer_mdoc: i32) -> (r: Result<Vec<InventoryTransaction>, AppError>)
        ensures
            r matches Ok(v) ==> v.deep_view() == self.transactions().filter(
                |t: InventoryTransactionView| t.customer_mdoc == Some(customer_mdoc),
            ),
    ;

    fn search(
        &self,
        limit: i32,
        offset: i32,
        date: Option<String>,
        search: Option<String>,
    ) -> (r: Result<Vec<(InventoryTransaction, String, String)>, AppError>)
        ensures
            r matches Ok(v) ==> v@ == self.search_results(limit, offset, date, search),
    ;

    fn count(&self, date: Option<String>, search: Option<String>) -> (r: Result<i32, AppError>)
        ensures
            r matches Ok(n) ==> n == self.count_results(date, search),
    ;

    fn list_for_operator(&self, operator_mdoc: i32) -> (r: Result<Vec<InventoryTransaction>, AppError>)
        ensures
            r matches Ok(v) ==> v.deep_view() == self.transactions().filter(
                |t: InventoryTransactionView| t.operator_mdoc == operator_mdoc,
            ),
    ;

    /// The stock changes made today; which day that is depends on the clock,
    /// so only that each one is stored is stated.
    fn list_for_today(&self) -> (r: Result<Vec<InventoryTransaction>, AppError>)
        ensures
            r matches Ok(v) ==> forall|k: int| 0 <= k < v.len() ==> self.transactions().contains(#[trigger] v.deep_view()[k]),
    ;
}

/// An order, its lines with product names, and the customer's balance.
pub type SaleDetailsTuple = (CustomerTransaction, Vec<(CustomerTxDetail, String)>, i32);

/// Stored customer orders.
pub trait CustomerTransactionRepoTrait {
    /// The orders between two moments with their customers and lines, for the sales detail report.
    closed spec fn sales_details(&self, start: NaiveDateTime, end: NaiveDateTime) -> Seq<SalesReportDetails> {
        arbitrary()
    }

    closed spec fn transactions(&self) -> Seq<CustomerTransactionView> {
        arbitrary()
    }

    /// What was handed to `create`, in order, each with whether the insert
    /// succeeded; every call adds one entry, whatever it returns.
    closed spec fn create_log(&self) -> Seq<(CustomerTransactionView, bool)> {
        arbitrary()
    }

    /// A page of orders matching a search, with the customer name and the order total.
    closed spec fn search_results(
        &self,
        limit: i32,
        offset: i32,
        mdoc: Option<i32>,
        date: Option<String>,
        search: Option<String>,
    ) -> Seq<(CustomerTransaction, String, i32)> {
        arbitrary()
    }

    /// How many orders a search matches.
    closed spec fn count_results(&self, mdoc: Option<i32>, date: Option<String>, search: Option<String>) -> i32 {
        arbitrary()
    }

    /// The details of one order as the storage layer assembles them.
    closed spec fn sale_details(&self, order_id: i32) -> SaleDetailsTuple {
        arbitrary()
    }

    /// What a customer spent from `week_start` (inclusive) to seven days later (exclusive).
    closed spec fn weekly_spent(&self, customer_mdoc: i32, week_start: NaiveDateTime) -> i32 {
        arbitrary()
    }

    /// Stores an order under its own order id.
    fn create(&mut self, tx: &CustomerTransaction) -> (r: Result<(), AppError>)
        ensures
            final(self).create_log() == old(self).create_log().push((tx.deep_view(), r is Ok)),
            final(self).transactions() == (if r is Ok {
                old(self).transactions().push(tx.deep_view())
            } else {
                old(self).transactions()
            }),
    ;

    /// Stores an order in the open storage transaction under a new order id,
    /// which is positive and which it returns.
    fn create_with_tx(&mut self, tx: &CustomerTransaction) -> (r: Result<i32, AppError>)
        ensures
            match r {
                Ok(id) => id > 0 && final(self).transactions() == old(self).transactions().push(
                    CustomerTransactionView { order_id: id, ..tx.deep_view() },
                ),
                Err(_) => final(self).transactions() == old(self).transactions(),
            },
    ;

    fn list(&self) -> (r: Result<Vec<CustomerTransaction>, AppError>)
        ensures
            r matches Ok(v) ==> v.deep_view() == self.transactions(),
    ;

    fn search(
        &self,
        limit: i32,
        offset: i32,
        mdoc: Option<i32>,
        date: Option<String>,
        search: Option<String>,
    ) -> (r: Result<Vec<(CustomerTransaction, String, i32)>, AppError>)
        ensures
            r matches Ok(v) ==> v@ == self.search_results(limit, offset, mdoc, date, search),
    ;

    fn count(&self, mdoc: Option<i32>, date: Option<String>, search: Option<String>) -> (r: Result<i32, AppError>)
        ensures
            r matches Ok(n) ==> n == self.count_results(mdoc, date, search),
    ;

    fn get_with_details_and_balance(&self, order_id: i32) -> (r: Result<SaleDetailsTuple, AppError>)
        ensures
            r matches Ok(d) ==> d == self.sale_details(order_id),
    ;

    fn get_weekly_spent(&self, customer_mdoc: i32, week_start: NaiveDateTime) -> (r: Result<i32, AppError>)
        ensures
            r matches Ok(n) ==> n == self.weekly_spent(customer_mdoc, week_start),
    ;

    fn get(&self, order_id: i32) -> (r: Result<Option<CustomerTransaction>, AppError>)
        ensures
            r matches Ok(o) ==> o.deep_view() == order_with_id(self.transactions(), order_id),
    ;

    fn get_sales_details_data(&self, start: NaiveDateTime, end: NaiveDateTime) -> (r: Result<Vec<SalesReportDetails>, AppError>)
        ensures
            r matches Ok(v) ==> v@ == self.sales_details(start, end),
    ;
}

/// The stored lines of an order, in the order they were stored.
pub open spec fn order_details(details: Seq<CustomerTxDetailView>, order_id: i32) -> Seq<CustomerTxDetailView> {
    details.filter(|d: CustomerTxDetailView| d.order_id == order_id)
}

/// The order lines of a listing, without their product names.
pub open spec fn listed_details(lines: Seq<(CustomerTxDetail, String)>) -> Seq<CustomerTxDetailView> {
    lines.map_values(|p: (CustomerTxDetail, String)| p.0.deep_view())
}

/// Stored order lines.
pub trait CustomerTxDetailRepoTrait {
    /// The products sold between two moments, by category, with a summary line per category.
    closed spec fn category_sales(&self, start: NaiveDateTime, end: NaiveDateTime) -> Seq<ProductSalesByCategory> {
        arbitrary()
    }

    /// The quantity and value sold between two moments.
    closed spec fn sales_totals(&self, start: NaiveDateTime, end: NaiveDateTime) -> SalesTotals {
        arbitrary()
    }

    closed spec fn details(&self) -> Seq<CustomerTxDetailView> {
        arbitrary()
    }

    /// What was handed to `create`, in order, each with whether the insert
    /// succeeded; every call adds one entry, whatever it returns.
    closed spec fn create_log(&self) -> Seq<(CustomerTxDetailView, bool)> {
        arbitrary()
    }

    /// The lines of an order, each with its product's name.
    closed spec fn order_lines(&self, order_id: i32) -> Seq<(CustomerTxDetail, String)> {
        arbitrary()
    }

    fn create(&mut self, detail: &CustomerTxDetail) -> (r: Result<(), AppError>)
        ensures
            final(self).create_log() == old(self).create_log().push((detail.deep_view(), r is Ok)),
            final(self).details() == (if r is Ok {
                old(self).details().push(detail.deep_view())
            } else {
                old(self).details()
            }),
    ;

    /// Stores a line in the open storage transaction under a new detail id, which it returns.
    fn create_with_tx(&mut self, detail: &CustomerTxDetail) -> (r: Result<i32, AppError>)
        ensures
            match r {
                Ok(id) => final(self).details() == old(self).details().push(
                    CustomerTxDetailView { detail_id: id, ..detail.deep_view() },
                ),
                Err(_) => final(self).details() == old(self).details(),
            },
    ;

    fn list_by_order(&self, order_id: i32) -> (r: Result<Vec<(CustomerTxDetail, String)>, AppError>)
        ensures
            r matches Ok(v) ==> v@ == self.order_lines(order_id),
            r matches Ok(v) ==> listed_details(v@) == order_details(self.details(), order_id),
    ;

    fn sales_by_category(&self, start: NaiveDateTime, end: NaiveDateTime) -> (r: Result<Vec<ProductSalesByCategory>, AppError>)
        ensures
            r matches Ok(v) ==> v@ == self.category_sales(start, end),
    ;

    fn get_sales_totals(&self, start: NaiveDateTime, end: NaiveDateTime) -> (r: Result<SalesTotals, AppError>)
        ensures
            r matches Ok(t) ==> t == self.sales_totals(start, end),
    ;
}

/// The first price adjustment with the given id.
pub open spec fn adjustment_with_id(adjs: Seq<PriceAdjustmentView>, id: i32) -> Option<PriceAdjustmentView>
    decreases adjs.len(),
{
    if adjs.len() == 0 {
        None
    } else if adjs[0].id == id {
        Some(adjs[0])
    } else {
        adjustment_with_id(adjs.drop_first(), id)
    }
}

/// Stored price adjustments.
pub trait PriceAdjustmentRepoTrait {
    closed spec fn adjustments(&self) -> Seq<PriceAdjustmentView> {
        arbitrary()
    }

    /// A page of adjustments matching a search, with product description and operator name.
    closed spec fn search_results(
        &self,
        limit: i32,
        offset: i32,
        date: Option<String>,
        search: Option<String>,
    ) -> Seq<(PriceAdjustment, String, String)> {
        arbitrary()
    }

    /// How many adjustments a search matches.
    closed spec fn count_results(&self, date: Option<String>, search: Option<String>) -> i32 {
        arbitrary()
    }

    /// Stores an adjustment in the open storage transaction under a new id, which it returns.
    fn create_with_tx(&mut self, adj: &PriceAdjustment) -> (r: Result<i32, AppError>)
        ensures
            match r {
                Ok(id) => final(self).adjustments() == old(self).adjustments().push(
                    PriceAdjustmentView { id, ..adj.deep_view() },
                ),
                Err(_) => final(self).adjustments() == old(self).adjustments(),
            },
    ;

    fn get_by_id(&self, id: i32) -> (r: Result<Option<PriceAdjustment>, AppError>)
        ensures
            r matches Ok(o) ==> o.deep_view() == adjustment_with_id(self.adjustments(), id),
    ;

    fn list(&self) -> (r: Result<Vec<PriceAdjustment>, AppError>)
        ensures
            r matches Ok(v) ==> v.deep_view() == self.adjustments(),
    ;

    fn search(
        &self,
        limit: i32,
        offset: i32,
        date: Option<String>,
        search: Option<String>,
    ) -> (r: Result<Vec<(PriceAdjustment, String, String)>, AppError>)
        ensures
            r matches Ok(v) ==> v@ == self.search_results(limit, offset, date, search),
    ;

    fn count(&self, date: Option<String>, search: Option<String>) -> (r: Result<i32, AppError>)
        ensures
            r matches Ok(n) ==> n == self.count_results(date, search),
    ;
}

/// The stored staff password hash.
pub trait CredentialRepoTrait {
    closed spec fn stored_hash(&self) -> Option<Seq<char>> {
        arbitrary()
    }

    fn set_password(&mut self, hash: &str) -> (r: Result<(), AppError>)
        ensures
            final(self).stored_hash() == (if r is Ok { Some(hash@) } else { old(self).stored_hash() }),
    ;

    fn get_password_hash(&self) -> (r: Result<Option<String>, AppError>)
        ensures
            r matches Ok(Some(h)) ==> self.stored_hash() == Some(h@),
            r matches Ok(None) ==> self.stored_hash() is None,
    ;

    fn delete_password(&mut self) -> (r: Result<(), AppError>)
        ensures
            final(self).stored_hash() == (if r is Ok { None } else { old(self).stored_hash() }),
    ;
}

/// The stored weekly spending limit, in cents.
pub trait WeeklyLimitRepoTrait {
    closed spec fn limit(&self) -> i32 {
        arbitrary()
    }

    fn get_limit(&self) -> (r: Result<i32, AppError>)
        ensures
            r matches Ok(n) ==> n == self.limit(),
    ;

    fn set_limit(&mut self, limit: i32) -> (r: Result<(), AppError>)
        ensures
            final(self).limit() == (if r is Ok { limit } else { old(self).limit() }),
    ;
}

/// What the stores a sale writes hold: stock changes, orders, order lines.
pub type SaleTables = (Seq<InventoryTransactionView>, Seq<CustomerTransactionView>, Seq<CustomerTxDetailView>);

/// What the stores of a sale hold now.
pub open spec fn sale_tables<V: InventoryTransactionRepoTrait, S: CustomerTransactionRepoTrait, D: CustomerTxDetailRepoTrait>(
    inv: V,
    orders: S,
    lines: D,
) -> SaleTables {
    (inv.transactions(), orders.transactions(), lines.details())
}

/// The storage transaction around a sale. The stock, order and line stores
/// share one database: what they store between `begin` and a `commit` that
/// succeeds is kept together, and `rollback`, or a commit that fails, gives
/// them back what they held at `begin`. The stores are handed to the calls
/// that can change what they hold.
pub trait SaleUnitOfWork<V: InventoryTransactionRepoTrait, S: CustomerTransactionRepoTrait, D: CustomerTxDetailRepoTrait> {
    /// Whether a storage transaction is open.
    closed spec fn in_progress(&self) -> bool {
        arbitrary()
    }

    /// How many storage transactions were committed.
    closed spec fn commits(&self) -> nat {
        arbitrary()
    }

    /// What the stores held when the open storage transaction began.
    closed spec fn at_begin(&self) -> SaleTables {
        arbitrary()
    }

    /// Opens a storage transaction.
    fn begin(&mut self, inv: &V, orders: &S, lines: &D) -> (r: Result<(), AppError>)
        ensures
            final(self).commits() == old(self).commits(),
            r is Ok ==> final(self).in_progress() && final(self).at_begin() == sale_tables(*inv, *orders, *lines),
            r is Err ==> final(self).in_progress() == old(self).in_progress(),
    ;

    /// Commits the open storage transaction; it is closed either way, and a
    /// commit that fails leaves the stores as they were at `begin`.
    fn commit(&mut self, inv: &mut V, orders: &mut S, lines: &mut D) -> (r: Result<(), AppError>)
        ensures
            !final(self).in_progress(),
            final(self).commits() == old(self).commits() + (if r is Ok { 1nat } else { 0nat }),
            sale_tables(*final(inv), *final(orders), *final(lines)) == (if r is Ok {
                sale_tables(*old(inv), *old(orders), *old(lines))
            } else {
                old(self).at_begin()
            }),
    ;

    /// Discards the open storage transaction: the stores hold again what they held at `begin`.
    fn rollback(&mut self, inv: &mut V, orders: &mut S, lines: &mut D)
        ensures
            !final(self).in_progress(),
            final(self).commits() == old(self).commits(),
            sale_tables(*final(inv), *final(orders), *final(lines)) == old(self).at_begin(),
    ;
}

/// The storage transaction around a price adjustment: the product store and
/// the price adjustment store share one database, as for a sale.
pub trait PriceUnitOfWork<P: ProductRepoTrait, A: PriceAdjustmentRepoTrait> {
    /// Whether a storage transaction is open.
    closed spec fn in_progress(&self) -> bool {
        arbitrary()
    }

    /// How many storage transactions were committed.
    closed spec fn commits(&self) -> nat {
        arbitrary()
    }

    /// What the product and adjustment stores held when the open storage transaction began.
    closed spec fn at_begin(&self) -> (Seq<ProductView>, Seq<PriceAdjustmentView>) {
        arbitrary()
    }

    /// Opens a storage transaction.
    fn begin(&mut self, products: &P, adjustments: &A) -> (r: Result<(), AppError>)
        ensures
            final(self).commits() == old(self).commits(),
            r is Ok ==> final(self).in_progress() && final(self).at_begin() == (products.products(), adjustments.adjustments()),
            r is Err ==> final(self).in_progress() == old(self).in_progress(),
    ;

    /// Commits the open storage transaction; it is closed either way, and a
    /// commit that fails leaves the stores as they were at `begin`.
    fn commit(&mut self, products: &mut P, adjustments: &mut A) -> (r: Result<(), AppError>)
        ensures
            !final(self).in_progress(),
            final(self).commits() == old(self).commits() + (if r is Ok { 1nat } else { 0nat }),
            (final(products).products(), final(adjustments).adjustments()) == (if r is Ok {
                (old(products).products(), old(adjustments).adjustments())
            } else {
                old(self).at_begin()
            }),
    ;

    /// Discards the open storage transaction: the stores hold again what they held at `begin`.
    fn rollback(&mut self, products: &mut P, adjustments: &mut A)
        ensures
            !final(self).in_progress(),
            final(self).commits() == old(self).commits(),
            (final(products).products(), final(adjustments).adjustments()) == old(self).at_begin(),
    ;
}

} // verus!
