//! Use cases for stock changes and sales.
use vstd::prelude::*;
use crate::datetime::{
    days_before, days_from_sunday, lemma_back_to_sunday, minus_days, now_utc, weekday_from_sunday, NaiveDate,
    MIN_YEAR,
    NaiveDateTime, NaiveTime,
};
use crate::error::AppError;
use crate::models::{
    CustomerTransaction, CustomerTransactionView, CustomerTxDetail, CustomerTxDetailView,
    InventoryTransaction, InventoryTransactionView,
};
use crate::paging::{offset_for_page, page_in_range, page_offset, PAGE_SIZE};
use crate::repos::{
    listed_details, order_details, CustomerTransactionRepoTrait, CustomerTxDetailRepoTrait, InventoryTransactionRepoTrait,
    sale_tables, SaleDetailsTuple, SaleUnitOfWork, WeeklyLimitRepoTrait,
};

verus! {

/// An inventory transaction tied to an order.
pub open spec fn linked_to_order(t: InventoryTransactionView, order_id: i32) -> InventoryTransactionView {
    InventoryTransactionView { ref_order_id: Some(order_id), ..t }
}

/// Whether `after` is `before` followed by the order lines, each tied to the
/// order and given some detail id.
pub open spec fn lines_appended(before: Seq<CustomerTxDetailView>, after: Seq<CustomerTxDetailView>, lines: Seq<CustomerTxDetailView>, order_id: i32) -> bool {
    &&& after.len() == before.len() + lines.len()
    &&& after.take(before.len() as int) == before
    &&& forall|k: int| 0 <= k < lines.len() ==> #[trigger] after[before.len() + k] == (CustomerTxDetailView {
        detail_id: after[before.len() + k].detail_id,
        order_id,
        ..lines[k]
    })
}

/// The date a sale is stored with: its own date, or a valid current time when it has none.
pub open spec fn sale_date(given: Option<NaiveDateTime>, d: NaiveDateTime) -> bool {
    match given {
        Some(x) => d == x,
        None => d.wf(),
    }
}

/// The start of the week of a moment: midnight of the Sunday on or before its day.
pub open spec fn week_start(now: NaiveDateTime) -> NaiveDateTime {
    NaiveDateTime {
        date: days_before(now.date, weekday_from_sunday(now.date) as nat),
        time: NaiveTime { hour: 0, minute: 0, second: 0, nano: 0 },
    }
}

/// The week that weekly spending is counted over starts at midnight of a Sunday.
pub proof fn week_starts_sunday_midnight(now: NaiveDateTime)
    requires
        now.wf(),
    ensures
        weekday_from_sunday(week_start(now).date) == 0,
        week_start(now).time == (NaiveTime { hour: 0, minute: 0, second: 0, nano: 0 }),
{
    lemma_back_to_sunday(now.date);
}

/// Stock changes, sales, order lookups and the weekly spending limit.
pub struct TransactionUseCases<V, S, D, L, W> {
    pub inv_repo: V,
    pub cust_tx_repo: S,
    pub cust_tx_detail_repo: D,
    pub limit_repo: L,
    pub conn: W,
}

fn inventory_for_order(t: &InventoryTransaction, order_id: i32) -> (r: InventoryTransaction)
    ensures
        r.deep_view() == linked_to_order(t.deep_view(), order_id),
{
    let reference = match &t.reference {
        Some(s) => Some(s.clone()),
        None => None,
    };
    InventoryTransaction {
        id: t.id,
        upc: t.upc.clone(),
        quantity_change: t.quantity_change,
        operator_mdoc: t.operator_mdoc,
        customer_mdoc: t.customer_mdoc,
        ref_order_id: Some(order_id),
        reference,
        created_at: t.created_at,
    }
}

fn detail_for_order(d: &CustomerTxDetail, order_id: i32) -> (r: CustomerTxDetail)
    ensures
        r.deep_view() == (CustomerTxDetailView { order_id, ..d.deep_view() }),
{
    CustomerTxDetail {
        detail_id: d.detail_id,
        order_id,
        upc: d.upc.clone(),
        quantity: d.quantity,
        price: d.price,
    }
}

impl<
    V: InventoryTransactionRepoTrait,
    S: CustomerTransactionRepoTrait,
    D: CustomerTxDetailRepoTrait,
    L: WeeklyLimitRepoTrait,
    W: SaleUnitOfWork<V, S, D>,
> TransactionUseCases<V, S, D, L, W> {
    pub fn new(inv_repo: V, cust_tx_repo: S, cust_tx_detail_repo: D, limit_repo: L, conn: W) -> (r: Self)
        ensures
            r.inv_repo == inv_repo,
            r.cust_tx_repo == cust_tx_repo,
            r.cust_tx_detail_repo == cust_tx_detail_repo,
            r.limit_repo == limit_repo,
            r.conn == conn,
    {
        TransactionUseCases { inv_repo, cust_tx_repo, cust_tx_detail_repo, limit_repo, conn }
    }

    /// Records a stock change stamped with the current time and returns it.
    pub fn inventory_adjustment(&mut self, tx: InventoryTransaction) -> (r: Result<InventoryTransaction, AppError>)
        ensures
            r is Err ==> final(self).inv_repo.transactions() == old(self).inv_repo.transactions(),
            r matches Ok(t) ==> {
                &&& t.created_at matches Some(now) && now.wf()
                &&& t.deep_view() == (InventoryTransactionView { created_at: t.created_at, ..tx.deep_view() })
                &&& final(self).inv_repo.transactions() == old(self).inv_repo.transactions().push(t.deep_view())
            },
    {
        let mut tx = tx;
        tx.created_at = Some(now_utc());
        match self.inv_repo.create(&tx) {
            Ok(()) => Ok(tx),
            Err(e) => Err(e),
        }
    }

    /// Records a sale in one storage transaction: the order (dated now when
    /// it has no date) gets a new order id, then every stock change is stored
    /// tied to that order, then every order line with that order id. The
    /// order id is returned. On a failure the transaction is rolled back, so
    /// the stores hold what they held before: a sale is stored whole or not at all.
    pub fn sale_transaction(
        &mut self,
        cust_tx: CustomerTransaction,
        invs: Vec<InventoryTransaction>,
        details: Vec<CustomerTxDetail>,
    ) -> (r: Result<i32, AppError>)
        ensures
            !old(self).conn.in_progress() ==> !final(self).conn.in_progress(),
            final(self).conn.commits() == old(self).conn.commits() + (if r is Ok { 1nat } else { 0nat }),
            r is Err ==> sale_tables(final(self).inv_repo, final(self).cust_tx_repo, final(self).cust_tx_detail_repo)
                == sale_tables(old(self).inv_repo, old(self).cust_tx_repo, old(self).cust_tx_detail_repo),
            r matches Ok(order_id) ==> {
                &&& order_id > 0
                &&& exists|d: NaiveDateTime| #![trigger sale_date(cust_tx.date, d)]
                    sale_date(cust_tx.date, d)
                    && final(self).cust_tx_repo.transactions() == old(self).cust_tx_repo.transactions().push(
                        CustomerTransactionView { order_id, date: Some(d), ..cust_tx.deep_view() },
                    )
                &&& final(self).inv_repo.transactions() == old(self).inv_repo.transactions()
                    + invs.deep_view().map_values(|t: InventoryTransactionView| linked_to_order(t, order_id))
                &&& lines_appended(
                    old(self).cust_tx_detail_repo.details(),
                    final(self).cust_tx_detail_repo.details(),
                    details.deep_view(),
                    order_id,
                )
            },
    {
        match self.conn.begin(&self.inv_repo, &self.cust_tx_repo, &self.cust_tx_detail_repo) {
            Ok(()) => {},
            Err(e) => {
                return Err(e);
            },
        }
        let date = match cust_tx.date {
            Some(d) => d,
            None => now_utc(),
        };
        let tx_to_insert = CustomerTransaction { date: Some(date), ..cust_tx };
        let order_id = match self.cust_tx_repo.create_with_tx(&tx_to_insert) {
            Ok(id) => id,
            Err(e) => {
                self.conn.rollback(&mut self.inv_repo, &mut self.cust_tx_repo, &mut self.cust_tx_detail_repo);
                return Err(e);
            },
        };
        let ghost cust_after = self.cust_tx_repo.transactions();
        assert(exists|d: NaiveDateTime| #![trigger sale_date(cust_tx.date, d)]
            sale_date(cust_tx.date, d)
            && cust_after == old(self).cust_tx_repo.transactions().push(
                CustomerTransactionView { order_id, date: Some(d), ..cust_tx.deep_view() },
            )) by {
            assert(sale_date(cust_tx.date, date));
        }
        let ghost inv_start = self.inv_repo.transactions();
        let ghost linked = invs.deep_view().map_values(|t: InventoryTransactionView| linked_to_order(t, order_id));
        let n = invs.len();
        let mut i: usize = 0;
        assert(inv_start + linked.take(0) =~= inv_start);
        while i < n
            invariant
                n == invs@.len(),
                i <= n,
                linked == invs.deep_view().map_values(|t: InventoryTransactionView| linked_to_order(t, order_id)),
                self.inv_repo.transactions() == inv_start + linked.take(i as int),
                self.cust_tx_repo.transactions() == cust_after,
                self.cust_tx_detail_repo.details() == old(self).cust_tx_detail_repo.details(),
                self.conn.in_progress(),
                self.conn.commits() == old(self).conn.commits(),
                self.conn.at_begin() == sale_tables(old(self).inv_repo, old(self).cust_tx_repo, old(self).cust_tx_detail_repo),
                order_id > 0,
            decreases n - i,
        {
            let item = inventory_for_order(&invs[i], order_id);
            match self.inv_repo.create_with_tx(&item) {
                Ok(()) => {},
                Err(e) => {
                    self.conn.rollback(&mut self.inv_repo, &mut self.cust_tx_repo, &mut self.cust_tx_detail_repo);
                    return Err(e);
                },
            }
            assert(inv_start + linked.take(i + 1) =~= (inv_start + linked.take(i as int)).push(linked[i as int]));
            i = i + 1;
        }
        assert(linked.take(n as int) =~= linked);
        let ghost det_start = self.cust_tx_detail_repo.details();
        let ghost lines = details.deep_view();
        let m = details.len();
        let mut j: usize = 0;
        assert(det_start.take(det_start.len() as int) =~= det_start);
        while j < m
            invariant
                m == details@.len(),
                j <= m,
                lines == details.deep_view(),
                lines_appended(det_start, self.cust_tx_detail_repo.details(), lines.take(j as int), order_id),
                self.cust_tx_repo.transactions() == cust_after,
                self.inv_repo.transactions() == inv_start + linked,
                self.conn.in_progress(),
                self.conn.commits() == old(self).conn.commits(),
                self.conn.at_begin() == sale_tables(old(self).inv_repo, old(self).cust_tx_repo, old(self).cust_tx_detail_repo),
                order_id > 0,
            decreases m - j,
        {
            let ghost before = self.cust_tx_detail_repo.details();
            let line = detail_for_order(&details[j], order_id);
            match self.cust_tx_detail_repo.create_with_tx(&line) {
                Ok(_) => {},
                Err(e) => {
                    self.conn.rollback(&mut self.inv_repo, &mut self.cust_tx_repo, &mut self.cust_tx_detail_repo);
                    return Err(e);
                },
            }
            proof {
                let after = self.cust_tx_detail_repo.details();
                let l2 = lines.take(j + 1);
                assert(after.take(det_start.len() as int) =~= before.take(det_start.len() as int));
                assert forall|k: int| 0 <= k < l2.len() implies #[trigger] after[det_start.len() + k] == (CustomerTxDetailView {
                    detail_id: after[det_start.len() + k].detail_id,
                    order_id,
                    ..l2[k]
                }) by {
                    if k < j {
                        assert(after[det_start.len() + k] == before[det_start.len() + k]);
                        assert(l2[k] == lines.take(j as int)[k]);
                    } else {
                        assert(l2[k] == details@[j as int].deep_view());
                    }
                }
            }
            j = j + 1;
        }
        assert(lines.take(m as int) =~= lines);
        match self.conn.commit(&mut self.inv_repo, &mut self.cust_tx_repo, &mut self.cust_tx_detail_repo) {
            Ok(()) => {},
            Err(e) => {
                return Err(e);
            },
        }
        Ok(order_id)
    }

    /// The stock changes of a product.
    pub fn list_for_product(&self, upc: String) -> (r: Result<Vec<InventoryTransaction>, AppError>)
        ensures
            r matches Ok(v) ==> v.deep_view() == self.inv_repo.transactions().filter(|t: InventoryTransactionView| t.upc == upc@),
    {
        self.inv_repo.list_for_product(upc)
    }

    /// A page of stock changes matching a date and a search text.
    pub fn search_inventory_transactions(&self, page: i32, date: Option<String>, search: Option<String>) -> (r: Result<Vec<(InventoryTransaction, String, String)>, AppError>)
        requires
            page_in_range(page),
        ensures
            r matches Ok(v) ==> v@ == self.inv_repo.search_results(PAGE_SIZE, page_offset(page) as i32, date, search),
    {
        let offset = offset_for_page(page);
        self.inv_repo.search(PAGE_SIZE, offset, date, search)
    }

    /// How many stock changes match a date and a search text.
    pub fn count_inventory_transactions(&self, date: Option<String>, search: Option<String>) -> (r: Result<i32, AppError>)
        ensures
            r matches Ok(n) ==> n == self.inv_repo.count_results(date, search),
    {
        self.inv_repo.count(date, search)
    }

    /// The stock changes of a customer.
    pub fn list_for_customer(&self, customer_mdoc: i32) -> (r: Result<Vec<InventoryTransaction>, AppError>)
        ensures
            r matches Ok(v) ==> v.deep_view() == self.inv_repo.transactions().filter(
                |t: InventoryTransactionView| t.customer_mdoc == Some(customer_mdoc),
            ),
    {
        self.inv_repo.list_for_customer(customer_mdoc)
    }

    /// The lines of an order with their product names.
    pub fn list_order_details(&self, order_id: i32) -> (r: Result<Vec<(CustomerTxDetail, String)>, AppError>)
        ensures
            r matches Ok(v) ==> v@ == self.cust_tx_detail_repo.order_lines(order_id),
            r matches Ok(v) ==> listed_details(v@) == order_details(self.cust_tx_detail_repo.details(), order_id),
    {
        self.cust_tx_detail_repo.list_by_order(order_id)
    }

    /// A page of orders matching a customer, a date and a search text.
    pub fn search_customer_transactions(
        &self,
        page: i32,
        mdoc: Option<i32>,
        date: Option<String>,
        search: Option<String>,
    ) -> (r: Result<Vec<(CustomerTransaction, String, i32)>, AppError>)
        requires
            page_in_range(page),
        ensures
            r matches Ok(v) ==> v@ == self.cust_tx_repo.search_results(PAGE_SIZE, page_offset(page) as i32, mdoc, date, search),
    {
        let offset = offset_for_page(page);
        self.cust_tx_repo.search(PAGE_SIZE, offset, mdoc, date, search)
    }

    /// How many orders match a customer, a date and a search text.
    pub fn count_customer_transactions(&self, mdoc: Option<i32>, date: Option<String>, search: Option<String>) -> (r: Result<i32, AppError>)
        ensures
            r matches Ok(n) ==> n == self.cust_tx_repo.count_results(mdoc, date, search),
    {
        self.cust_tx_repo.count(mdoc, date, search)
    }

    /// An order with its lines and the customer's balance.
    pub fn get_sale_details(&self, order_id: i32) -> (r: Result<SaleDetailsTuple, AppError>)
        ensures
            r matches Ok(d) ==> d == self.cust_tx_repo.sale_details(order_id),
    {
        self.cust_tx_repo.get_with_details_and_balance(order_id)
    }

    /// The weekly spending limit.
    pub fn get_weekly_limit(&self) -> (r: Result<i32, AppError>)
        ensures
            r matches Ok(n) ==> n == self.limit_repo.limit(),
    {
        self.limit_repo.get_limit()
    }

    /// Sets the weekly spending limit.
    pub fn set_weekly_limit(&mut self, limit: i32) -> (r: Result<(), AppError>)
        ensures
            final(self).limit_repo.limit() == (if r is Ok { limit } else { old(self).limit_repo.limit() }),
    {
        self.limit_repo.set_limit(limit)
    }

    /// What a customer spent this week: from Sunday midnight (UTC) of the
    /// current week, read from the clock.
    pub fn get_weekly_spent(&self, customer_mdoc: i32) -> (r: Result<i32, AppError>)
        ensures
            r matches Ok(n) ==> exists|now: NaiveDateTime| #[trigger] now.wf()
                && n == self.cust_tx_repo.weekly_spent(customer_mdoc, week_start(now)),
    {
        let now = now_utc();
        self.weekly_spent_at(customer_mdoc, now)
    }

    /// What a customer spent in the week of `now`: from midnight of the
    /// Sunday on or before its day.
    pub fn weekly_spent_at(&self, customer_mdoc: i32, now: NaiveDateTime) -> (r: Result<i32, AppError>)
        requires
            now.wf(),
            now.date.year > MIN_YEAR,
        ensures
            r matches Ok(n) ==> n == self.cust_tx_repo.weekly_spent(customer_mdoc, week_start(now)),
    {
        let weekday = days_from_sunday(now.date);
        let date: NaiveDate = now.date();
        let midnight = match date.and_hms_opt(0, 0, 0) {
            Some(m) => m,
            None => {
                return Err(AppError::Unexpected(String::from_str("Could not construct midnight time")));
            },
        };
        let start = minus_days(&midnight, weekday);
        self.cust_tx_repo.get_weekly_spent(customer_mdoc, start)
    }
}

} // verus!
