//! The printer: the names of the installed printers, read from what the
//! command that lists them prints (one name a line), and what each report
//! prints, read from the stores. Laying a report out and sending it to the
//! printer happen outside the library.
use vstd::prelude::*;
use crate::datetime::NaiveDateTime;
use crate::error::AppError;
use crate::models::{
    ClubImport, ClubTransactionRow, ClubTransactionWithTotal, Customer, PeriodTotals, Product,
    ProductInventoryReport, ProductInventoryTotals, ProductSalesByCategory, SalesReportDetails, SalesTotals,
};
use crate::repos::{
    import_with_id, ClubImportRepoTrait, ClubTransactionRepoTrait, CustomerRepoTrait, CustomerTransactionRepoTrait,
    CustomerTxDetailRepoTrait, ProductRepoTrait,
};
use crate::text::{blank, is_blank, push_char};

verus! {

/// A line without the carriage return at its end, if it has one.
pub open spec fn without_cr(l: Seq<char>) -> Seq<char> {
    if l.len() > 0 && l.last() == '\r' {
        l.drop_last()
    } else {
        l
    }
}

/// The lines of `s`, the current line having begun with `cur`: each line
/// ends at a line feed (a carriage return just before it is dropped), and
/// the text after the last line feed is a line, kept as it is, only when it
/// is not empty.
pub open spec fn lines_from(s: Seq<char>, cur: Seq<char>) -> Seq<Seq<char>>
    decreases s.len(),
{
    if s.len() == 0 {
        if cur.len() == 0 {
            Seq::empty()
        } else {
            seq![cur]
        }
    } else if s[0] == '\n' {
        seq![without_cr(cur)] + lines_from(s.drop_first(), Seq::empty())
    } else {
        lines_from(s.drop_first(), cur.push(s[0]))
    }
}

/// The lines of a text, as `str::lines` yields them.
pub open spec fn text_lines(s: Seq<char>) -> Seq<Seq<char>> {
    lines_from(s, Seq::empty())
}

/// Whether a line holds more than whitespace.
pub open spec fn not_blank() -> spec_fn(Seq<char>) -> bool {
    |l: Seq<char>| !is_blank(l)
}

/// The printer names in the listing: its lines that are not blank, in order.
pub open spec fn printer_names_in(out: Seq<char>) -> Seq<Seq<char>> {
    text_lines(out).filter(not_blank())
}

/// The line `cur` as it is kept: without a carriage return at its end.
fn line_without_cr(cur: &String) -> (r: String)
    ensures
        r@ == without_cr(cur@),
{
    let n = cur.as_str().unicode_len();
    if n > 0 && cur.as_str().get_char(n - 1) == '\r' {
        String::from_str(cur.as_str().substring_char(0, n - 1))
    } else {
        cur.clone()
    }
}

/// Reads the printer names from the listing's output.
pub fn printer_names(out: &str) -> (r: Vec<String>)
    ensures
        r.deep_view() == printer_names_in(out@),
{
    broadcast use vstd::seq_lib::group_filter_ensures, Seq::filter_distributes_over_add;

    let n = out.unicode_len();
    let mut names: Vec<String> = Vec::new();
    let mut cur = String::new();
    let mut i: usize = 0;
    assert(out@.skip(0) =~= out@);
    while i < n
        invariant
            n == out@.len(),
            i <= n,
            printer_names_in(out@) == names.deep_view() + lines_from(out@.skip(i as int), cur@).filter(not_blank()),
        decreases n - i,
    {
        let c = out.get_char(i);
        let ghost rest = out@.skip(i as int);
        assert(rest[0] == c);
        assert(rest.drop_first() =~= out@.skip(i + 1));
        if c == '\n' {
            let line = line_without_cr(&cur);
            let keep = !blank(line.as_str());
            proof {
                let one = seq![line@];
                assert(lines_from(rest, cur@) == one + lines_from(out@.skip(i + 1), Seq::empty()));
                Seq::filter_distributes_over_add(one, lines_from(out@.skip(i + 1), Seq::empty()), not_blank());
                reveal_with_fuel(Seq::filter, 2);
                assert(one.drop_last() =~= Seq::<Seq<char>>::empty());
                assert(one.filter(not_blank()) == (if keep { one } else { Seq::empty() }));
            }
            let ghost before = names.deep_view();
            if keep {
                names.push(line);
                assert(names.deep_view() =~= before + seq![line@]);
            }
            cur = String::new();
            proof {
                assert(cur@ =~= Seq::<char>::empty());
            }
        } else {
            assert(lines_from(rest, cur@) == lines_from(out@.skip(i + 1), cur@.push(c)));
            push_char(&mut cur, c);
        }
        i = i + 1;
    }
    assert(out@.skip(n as int).len() == 0);
    if cur.as_str().unicode_len() > 0 {
        let keep = !blank(cur.as_str());
        proof {
            let one = seq![cur@];
            assert(lines_from(out@.skip(n as int), cur@) == one);
            reveal_with_fuel(Seq::filter, 2);
            assert(one.drop_last() =~= Seq::<Seq<char>>::empty());
            assert(one.filter(not_blank()) == (if keep { one } else { Seq::empty() }));
        }
        let ghost before = names.deep_view();
        let ghost last = cur@;
        if keep {
            names.push(cur);
            assert(names.deep_view() =~= before + seq![last]);
        } else {
            assert(names.deep_view() =~= before + Seq::<Seq<char>>::empty());
        }
    } else {
        assert(lines_from(out@.skip(n as int), cur@) =~= Seq::<Seq<char>>::empty());
        assert(names.deep_view() =~= names.deep_view() + Seq::<Seq<char>>::empty());
    }
    names
}

/// The row of the club import report for a club transaction with its running total.
pub open spec fn import_report_row(t: ClubTransactionWithTotal) -> ClubTransactionRow {
    ClubTransactionRow { running_total: t.running_total, tx: t }
}

/// The rows of the club import report.
pub open spec fn import_report_rows(txs: Seq<ClubTransactionWithTotal>) -> Seq<ClubTransactionRow> {
    txs.map_values(|t: ClubTransactionWithTotal| import_report_row(t))
}

/// Turns club transactions with running totals into the club import report's rows, in order.
pub fn import_rows_of(txs: Vec<ClubTransactionWithTotal>) -> (rows: Vec<ClubTransactionRow>)
    ensures
        rows@ == import_report_rows(txs@),
{
    let ghost all = txs@;
    let mut rest = txs;
    let mut rows: Vec<ClubTransactionRow> = Vec::new();
    while rest.len() > 0
        invariant
            rows@.len() + rest@.len() == all.len(),
            rest@ == all.skip(rows@.len() as int),
            rows@ == import_report_rows(all.take(rows@.len() as int)),
        decreases rest@.len(),
    {
        let t = rest.remove(0);
        let running_total = t.running_total;
        let ghost k = rows@.len() as int;
        rows.push(ClubTransactionRow { running_total, tx: t });
        assert(all.take(k + 1) =~= all.take(k).push(all[k]));
        assert(rest@ =~= all.skip(k + 1));
        assert(rows@ =~= import_report_rows(all.take(k + 1)));
    }
    assert(all.take(all.len() as int) =~= all);
    rows
}

/// What the reports print, read from the stores.
pub struct PrinterUseCases<U, P, S, D, I, T> {
    pub customer_repo: U,
    pub product_repo: P,
    pub cust_tx_repo: S,
    pub cust_tx_detail_repo: D,
    pub club_import_repo: I,
    pub club_tx_repo: T,
}

impl<
    U: CustomerRepoTrait,
    P: ProductRepoTrait,
    S: CustomerTransactionRepoTrait,
    D: CustomerTxDetailRepoTrait,
    I: ClubImportRepoTrait,
    T: ClubTransactionRepoTrait,
> PrinterUseCases<U, P, S, D, I, T> {
    pub fn new(customer_repo: U, product_repo: P, cust_tx_repo: S, cust_tx_detail_repo: D, club_import_repo: I, club_tx_repo: T) -> (r: Self)
        ensures
            r.customer_repo == customer_repo,
            r.product_repo == product_repo,
            r.cust_tx_repo == cust_tx_repo,
            r.cust_tx_detail_repo == cust_tx_detail_repo,
            r.club_import_repo == club_import_repo,
            r.club_tx_repo == club_tx_repo,
    {
        PrinterUseCases { customer_repo, product_repo, cust_tx_repo, cust_tx_detail_repo, club_import_repo, club_tx_repo }
    }

    /// The inventory report: its lines by category, its totals, and the sum
    /// of the customers' balances for its footer.
    pub fn prod_inv_rpt_data(&self) -> (r: Result<(Vec<ProductInventoryReport>, ProductInventoryTotals, i32), AppError>)
        ensures
            r matches Ok((rows, totals, balances)) ==> rows@ == self.product_repo.inventory_rows()
                && totals == self.product_repo.inventory_totals() && balances == self.customer_repo.balances_total(),
    {
        let rows = match self.product_repo.report_by_category() {
            Ok(v) => v,
            Err(e) => {
                return Err(e);
            },
        };
        let total_amount = match self.customer_repo.sum_all_balances() {
            Ok(n) => n,
            Err(e) => {
                return Err(e);
            },
        };
        let product_totals = match self.product_repo.get_inventory_totals() {
            Ok(t) => t,
            Err(e) => {
                return Err(e);
            },
        };
        Ok((rows, product_totals, total_amount))
    }

    /// The customer balance report: every customer with their balance, and the sum of the balances.
    pub fn cust_bal_rpt_data(&self) -> (r: Result<(Vec<(Customer, i32)>, i32), AppError>)
        ensures
            r matches Ok((accounts, balances)) ==> accounts@ == self.customer_repo.accounts()
                && balances == self.customer_repo.balances_total(),
    {
        let data = match self.customer_repo.list_customer_accounts() {
            Ok(v) => v,
            Err(e) => {
                return Err(e);
            },
        };
        let total_amount = match self.customer_repo.sum_all_balances() {
            Ok(n) => n,
            Err(e) => {
                return Err(e);
            },
        };
        Ok((data, total_amount))
    }

    /// The product catalog: every stored product.
    pub fn product_catalog_data(&self) -> (r: Result<Vec<Product>, AppError>)
        ensures
            r matches Ok(v) ==> v.deep_view() == self.product_repo.products(),
    {
        self.product_repo.list()
    }

    /// The sales detail report between two moments: the orders with their
    /// lines, and the sum of the customers' balances.
    pub fn sales_detail_report_data(&self, start_date: NaiveDateTime, end_date: NaiveDateTime) -> (r: Result<(Vec<SalesReportDetails>, i32), AppError>)
        ensures
            r matches Ok((details, balances)) ==> details@ == self.cust_tx_repo.sales_details(start_date, end_date)
                && balances == self.customer_repo.balances_total(),
    {
        let data = match self.cust_tx_repo.get_sales_details_data(start_date, end_date) {
            Ok(v) => v,
            Err(e) => {
                return Err(e);
            },
        };
        let total_amount = match self.customer_repo.sum_all_balances() {
            Ok(n) => n,
            Err(e) => {
                return Err(e);
            },
        };
        Ok((data, total_amount))
    }

    /// The product sales report between two moments: the sales by category,
    /// their totals, and the sum of the customers' balances.
    pub fn sales_by_category_data(&self, start: NaiveDateTime, end: NaiveDateTime) -> (r: Result<(Vec<ProductSalesByCategory>, SalesTotals, i32), AppError>)
        ensures
            r matches Ok((rows, totals, balances)) ==> rows@ == self.cust_tx_detail_repo.category_sales(start, end)
                && totals == self.cust_tx_detail_repo.sales_totals(start, end)
                && balances == self.customer_repo.balances_total(),
    {
        let data = match self.cust_tx_detail_repo.sales_by_category(start, end) {
            Ok(v) => v,
            Err(e) => {
                return Err(e);
            },
        };
        let sales_totals = match self.cust_tx_detail_repo.get_sales_totals(start, end) {
            Ok(t) => t,
            Err(e) => {
                return Err(e);
            },
        };
        let total_amount = match self.customer_repo.sum_all_balances() {
            Ok(n) => n,
            Err(e) => {
                return Err(e);
            },
        };
        Ok((data, sales_totals, total_amount))
    }

    /// The club import report of a statement from a date on: the import, its
    /// transactions with running totals, the sum of the customers' balances
    /// and the statement's sums. An unknown import is `NotFound`.
    pub fn club_import_data(&self, id: i32, start_date: NaiveDateTime) -> (r: Result<(ClubImport, Vec<ClubTransactionRow>, i32, PeriodTotals), AppError>)
        ensures
            import_with_id(self.club_import_repo.imports(), id) is None ==> r is Err,
            r matches Ok((imp, rows, balances, periods)) ==> {
                &&& import_with_id(self.club_import_repo.imports(), id) == Some(imp.deep_view())
                &&& rows@ == import_report_rows(self.club_tx_repo.import_rows(id, Some(start_date)))
                &&& balances == self.customer_repo.balances_total()
                &&& periods == self.club_tx_repo.period_totals(id)
            },
    {
        let tx = match self.club_tx_repo.get_by_import_id_with_total(id, Some(start_date)) {
            Ok(v) => v,
            Err(e) => {
                return Err(e);
            },
        };
        let import = match self.club_import_repo.get_by_id(id) {
            Ok(Some(i)) => i,
            Ok(None) => {
                return Err(AppError::NotFound(String::from_str("Import not found")));
            },
            Err(e) => {
                return Err(e);
            },
        };
        let total_amount = match self.customer_repo.sum_all_balances() {
            Ok(n) => n,
            Err(e) => {
                return Err(e);
            },
        };
        let tx_rows = import_rows_of(tx);
        let period_totals = match self.club_tx_repo.get_period_sums_for_import(id) {
            Ok(t) => t,
            Err(e) => {
                return Err(e);
            },
        };
        Ok((import, tx_rows, total_amount, period_totals))
    }
}

} // verus!
