//! Migration of the records of the old Access database into the repositories.
//! Reading the old tables is I/O and happens elsewhere; here each row is
//! checked, converted and stored, and rows that break a rule are skipped.
use vstd::prelude::*;
use crate::datetime::{
    chrono_parse_date, parse_date, valid_hms_nano, valid_ymd, NaiveDate, NaiveDateTime, NaiveTime,
};
use crate::error::AppError;
use crate::operators::{create_keeps_operator_mdocs_unique, lemma_operator_not_found, operator_mdocs_unique};
use crate::models::{
    CategoryView, ClubImport, ClubImportView, ClubTransaction, ClubTransactionView, Customer,
    CustomerTransaction, CustomerTransactionView, CustomerTxDetail, CustomerTxDetailView,
    CustomerView, InventoryTransaction, InventoryTransactionView, Operator, OperatorView, Product,
    ProductView, TransactionType,
};
use crate::pattern::{capture_group, check_pattern, first_captures, group, regex_compiled, regex_first_captures};
use crate::repos::{
    operator_with_mdoc, CategoryRepoTrait, ClubImportRepoTrait, ClubTransactionRepoTrait,
    CustomerRepoTrait, CustomerTransactionRepoTrait, CustomerTxDetailRepoTrait,
    InventoryTransactionRepoTrait, OperatorRepoTrait, ProductRepoTrait,
};
use crate::text::{
    before_first, is_blank, is_upc, parse_i32, parse_i32_spec, split_in_two, split_two, text_before,
    trim, trim_spec, valid_upc,
};

verus! {

/// A date and time as the old database stores it; `fraction` is read as microseconds.
#[derive(Debug, Clone, Copy, PartialEq, Eq, Structural)]
pub struct Timestamp {
    pub year: i16,
    pub month: u16,
    pub day: u16,
    pub hour: u16,
    pub minute: u16,
    pub second: u16,
    pub fraction: u32,
}

impl DeepView for Timestamp {
    type V = Timestamp;

    open spec fn deep_view(&self) -> Timestamp {
        *self
    }
}

/// The date and time a stored timestamp stands for, if it names one.
pub open spec fn timestamp_value(ts: Timestamp) -> Option<NaiveDateTime> {
    let nano = ts.fraction as int * 1000;
    if !valid_ymd(ts.year as int, ts.month as int, ts.day as int) {
        None
    } else if nano > u32::MAX || !valid_hms_nano(ts.hour as int, ts.minute as int, ts.second as int, nano) {
        None
    } else {
        Some(NaiveDateTime {
            date: NaiveDate { year: ts.year as i32, month: ts.month as u32, day: ts.day as u32 },
            time: NaiveTime {
                hour: ts.hour as u32,
                minute: ts.minute as u32,
                second: ts.second as u32,
                nano: nano as u32,
            },
        })
    }
}

/// The message of the error for a timestamp that names no moment: the date is checked first.
pub open spec fn timestamp_error(ts: Timestamp) -> Seq<char> {
    if valid_ymd(ts.year as int, ts.month as int, ts.day as int) {
        "invalid time"@
    } else {
        "invalid date"@
    }
}

/// Converts a stored timestamp; the date is checked first, then the time.
pub fn ts_to_naive(ts: Timestamp) -> (r: Result<NaiveDateTime, AppError>)
    ensures
        match r {
            Ok(dt) => timestamp_value(ts) == Some(dt),
            Err(e) => timestamp_value(ts) is None && (e matches AppError::Unexpected(m) && m@ == timestamp_error(ts)),
        },
{
    let date = match NaiveDate::from_ymd_opt(ts.year as i32, ts.month as u32, ts.day as u32) {
        Some(d) => d,
        None => {
            return Err(AppError::Unexpected(String::from_str("invalid date")));
        },
    };
    let time = match NaiveTime::from_hms_micro_opt(
        ts.hour as u32,
        ts.minute as u32,
        ts.second as u32,
        ts.fraction,
    ) {
        Some(t) => t,
        None => {
            return Err(AppError::Unexpected(String::from_str("invalid time")));
        },
    };
    Ok(NaiveDateTime::new(date, time))
}

/// The moment an optional timestamp stands for; `None` stays `None`, and a
/// timestamp that names no moment gives `None` inside `Some`.
pub open spec fn optional_timestamp(ts: Option<Timestamp>) -> Option<Option<NaiveDateTime>> {
    match ts {
        None => Some(None),
        Some(t) => match timestamp_value(t) {
            Some(dt) => Some(Some(dt)),
            None => None,
        },
    }
}

/// A row of `tblOperator`: MDOC, name, start and stop.
pub type RawOperatorRow = (Option<i32>, Option<String>, Option<Timestamp>, Option<Timestamp>);

/// The abstract value of an operator row.
pub type RawOperatorRowView = (Option<i32>, Option<Seq<char>>, Option<Timestamp>, Option<Timestamp>);

/// The operator a row yields when no operator with its MDOC exists yet:
/// a positive MDOC, a name that is not blank (stored trimmed), a valid start,
/// and a stop that is absent or valid.
pub open spec fn operator_from_row(row: RawOperatorRowView) -> Option<OperatorView> {
    match row {
        (Some(mdoc), Some(name), Some(start), stop) => {
            if mdoc > 0 && !is_blank(name) && timestamp_value(start) is Some
                && optional_timestamp(stop) is Some {
                Some(OperatorView {
                    mdoc,
                    name: trim_spec(name),
                    start: timestamp_value(start),
                    stop: optional_timestamp(stop).unwrap(),
                })
            } else {
                None
            }
        },
        _ => None,
    }
}

/// The operators after one row is migrated. `looked_up` says whether the
/// check for an existing MDOC succeeded (a failed check does not skip the
/// row), `stored` whether the insert succeeded.
pub open spec fn operator_step(ops: Seq<OperatorView>, row: RawOperatorRowView, looked_up: bool, stored: bool) -> Seq<OperatorView> {
    match operator_from_row(row) {
        Some(op) => if (looked_up && operator_with_mdoc(ops, op.mdoc) is Some) || !stored {
            ops
        } else {
            ops.push(op)
        },
        None => ops,
    }
}

/// The operators after the rows are migrated in order, given the outcome of each storage call.
pub open spec fn operators_migrated(
    ops: Seq<OperatorView>,
    rows: Seq<RawOperatorRowView>,
    looked_up: Seq<bool>,
    stored: Seq<bool>,
) -> Seq<OperatorView>
    decreases rows.len(),
{
    if rows.len() == 0 {
        ops
    } else {
        operator_step(
            operators_migrated(ops, rows.drop_last(), looked_up.drop_last(), stored.drop_last()),
            rows.last(),
            looked_up.last(),
            stored.last(),
        )
    }
}

/// What migrating the operator rows hands to the store's `create`, in
/// order: the operator of each row that yields one, unless the check for
/// its MDOC succeeded and found one already stored; with whether the insert
/// succeeded.
pub open spec fn operators_attempts(
    ops: Seq<OperatorView>,
    rows: Seq<RawOperatorRowView>,
    looked_up: Seq<bool>,
    stored: Seq<bool>,
) -> Seq<(OperatorView, bool)>
    decreases rows.len(),
{
    if rows.len() == 0 {
        Seq::empty()
    } else {
        let prev = operators_attempts(ops, rows.drop_last(), looked_up.drop_last(), stored.drop_last());
        let current = operators_migrated(ops, rows.drop_last(), looked_up.drop_last(), stored.drop_last());
        match operator_from_row(rows.last()) {
            Some(op) => if looked_up.last() && operator_with_mdoc(current, op.mdoc) is Some {
                prev
            } else {
                prev.push((op, stored.last()))
            },
            None => prev,
        }
    }
}


/// A row of `tblProduct`: UPC, category, description, price in cents
/// (rounded from the stored amount), updated, added and deleted.
pub type RawProductRow = (
    Option<String>,
    Option<String>,
    Option<String>,
    Option<i32>,
    Option<Timestamp>,
    Option<Timestamp>,
    Option<Timestamp>,
);

/// The abstract value of a product row.
pub type RawProductRowView = (
    Option<Seq<char>>,
    Option<Seq<char>>,
    Option<Seq<char>>,
    Option<i32>,
    Option<Timestamp>,
    Option<Timestamp>,
    Option<Timestamp>,
);

/// The product a row yields: a trimmed UPC of 8, 12 or 14 digits, category and
/// description not blank (stored trimmed), a positive price, valid updated and
/// added dates, and a deleted date that is absent or valid.
pub open spec fn product_from_row(row: RawProductRowView) -> Option<ProductView> {
    match row {
        (Some(upc), Some(cat), Some(desc), Some(price), Some(upd), Some(add), del) => {
            if is_upc(trim_spec(upc)) && !is_blank(cat) && !is_blank(desc) && price > 0
                && timestamp_value(upd) is Some && timestamp_value(add) is Some
                && optional_timestamp(del) is Some {
                Some(ProductView {
                    upc: trim_spec(upc),
                    desc: trim_spec(desc),
                    category: trim_spec(cat),
                    price,
                    updated: timestamp_value(upd),
                    added: timestamp_value(add),
                    deleted: optional_timestamp(del).unwrap(),
                })
            } else {
                None
            }
        },
        _ => None,
    }
}

/// The stored products after the rows are migrated in order; `stored` says
/// which inserts succeeded.
pub open spec fn products_migrated(items: Seq<ProductView>, rows: Seq<RawProductRowView>, stored: Seq<bool>) -> Seq<ProductView>
    decreases rows.len(),
{
    if rows.len() == 0 {
        items
    } else {
        let prev = products_migrated(items, rows.drop_last(), stored.drop_last());
        match product_from_row(rows.last()) {
            Some(v) => if stored.last() { prev.push(v) } else { prev },
            None => prev,
        }
    }
}

/// What the migration of the rows hands to the store's `create`, in order:
/// the record of each row that yields one, with whether its insert succeeded.
pub open spec fn products_attempts(rows: Seq<RawProductRowView>, stored: Seq<bool>) -> Seq<(ProductView, bool)>
    decreases rows.len(),
{
    if rows.len() == 0 {
        Seq::empty()
    } else {
        let prev = products_attempts(rows.drop_last(), stored.drop_last());
        match product_from_row(rows.last()) {
            Some(v) => prev.push((v, stored.last())),
            None => prev,
        }
    }
}

/// A row of `tblCustomer`: MDOC, name and the date the customer was added.
pub type RawCustomerRow = (Option<i32>, Option<String>, Option<Timestamp>);

/// The abstract value of a customer row.
pub type RawCustomerRowView = (Option<i32>, Option<Seq<char>>, Option<Timestamp>);

/// The customer a row yields: a positive MDOC, a name that is not blank
/// (stored trimmed) and a valid added date, which is also the updated date.
pub open spec fn customer_from_row(row: RawCustomerRowView) -> Option<CustomerView> {
    match row {
        (Some(mdoc), Some(name), Some(added)) => {
            if mdoc > 0 && !is_blank(name) && timestamp_value(added) is Some {
                Some(CustomerView {
                    mdoc,
                    name: trim_spec(name),
                    added: timestamp_value(added).unwrap(),
                    updated: timestamp_value(added).unwrap(),
                })
            } else {
                None
            }
        },
        _ => None,
    }
}

/// The stored customers after the rows are migrated in order; `stored` says
/// which inserts succeeded.
pub open spec fn customers_migrated(items: Seq<CustomerView>, rows: Seq<RawCustomerRowView>, stored: Seq<bool>) -> Seq<CustomerView>
    decreases rows.len(),
{
    if rows.len() == 0 {
        items
    } else {
        let prev = customers_migrated(items, rows.drop_last(), stored.drop_last());
        match customer_from_row(rows.last()) {
            Some(v) => if stored.last() { prev.push(v) } else { prev },
            None => prev,
        }
    }
}

/// What the migration of the rows hands to the store's `create`, in order:
/// the record of each row that yields one, with whether its insert succeeded.
pub open spec fn customers_attempts(rows: Seq<RawCustomerRowView>, stored: Seq<bool>) -> Seq<(CustomerView, bool)>
    decreases rows.len(),
{
    if rows.len() == 0 {
        Seq::empty()
    } else {
        let prev = customers_attempts(rows.drop_last(), stored.drop_last());
        match customer_from_row(rows.last()) {
            Some(v) => prev.push((v, stored.last())),
            None => prev,
        }
    }
}

/// A row of `tblCustomerOrder`: order id, customer MDOC, operator MDOC, entry date and note.
pub type RawCustomerOrderRow = (Option<i32>, Option<i32>, Option<i32>, Option<Timestamp>, Option<String>);

/// The abstract value of an order row.
pub type RawCustomerOrderRowView = (Option<i32>, Option<i32>, Option<i32>, Option<Timestamp>, Option<Seq<char>>);

/// The note kept for an order: the trimmed note, or nothing when it is missing or blank.
pub open spec fn order_note(note: Option<Seq<char>>) -> Option<Seq<char>> {
    match note {
        Some(n) => if is_blank(n) { None } else { Some(trim_spec(n)) },
        None => None,
    }
}

/// The order a row yields: positive customer MDOC, operator MDOC and order id,
/// and a valid entry date; the old order id is kept.
pub open spec fn customer_order_from_row(row: RawCustomerOrderRowView) -> Option<CustomerTransactionView> {
    match row {
        (Some(order_id), Some(cust), Some(op), Some(entry), note) => {
            if cust > 0 && op > 0 && timestamp_value(entry) is Some && order_id > 0 {
                Some(CustomerTransactionView {
                    order_id,
                    customer_mdoc: cust,
                    operator_mdoc: op,
                    date: timestamp_value(entry),
                    note: order_note(note),
                })
            } else {
                None
            }
        },
        _ => None,
    }
}

/// The stored customer_orders after the rows are migrated in order; `stored` says
/// which inserts succeeded.
pub open spec fn customer_orders_migrated(items: Seq<CustomerTransactionView>, rows: Seq<RawCustomerOrderRowView>, stored: Seq<bool>) -> Seq<CustomerTransactionView>
    decreases rows.len(),
{
    if rows.len() == 0 {
        items
    } else {
        let prev = customer_orders_migrated(items, rows.drop_last(), stored.drop_last());
        match customer_order_from_row(rows.last()) {
            Some(v) => if stored.last() { prev.push(v) } else { prev },
            None => prev,
        }
    }
}

/// What the migration of the rows hands to the store's `create`, in order:
/// the record of each row that yields one, with whether its insert succeeded.
pub open spec fn customer_orders_attempts(rows: Seq<RawCustomerOrderRowView>, stored: Seq<bool>) -> Seq<(CustomerTransactionView, bool)>
    decreases rows.len(),
{
    if rows.len() == 0 {
        Seq::empty()
    } else {
        let prev = customer_orders_attempts(rows.drop_last(), stored.drop_last());
        match customer_order_from_row(rows.last()) {
            Some(v) => prev.push((v, stored.last())),
            None => prev,
        }
    }
}

/// A row of `tblCustomerOrderDetail`: old detail id (ignored), order id, UPC,
/// quantity and price in cents (rounded from the stored amount).
pub type RawCustomerOrderDetailRow = (Option<i32>, Option<i32>, Option<String>, Option<i32>, Option<i32>);

/// The abstract value of an order detail row.
pub type RawCustomerOrderDetailRowView = (Option<i32>, Option<i32>, Option<Seq<char>>, Option<i32>, Option<i32>);

/// The order line a row yields: a positive order id, a trimmed UPC of 8, 12
/// or 14 digits, a quantity that is not negative and a positive price; the
/// line gets a new id.
pub open spec fn order_detail_from_row(row: RawCustomerOrderDetailRowView) -> Option<CustomerTxDetailView> {
    match row {
        (_, Some(order_id), Some(upc), Some(qty), Some(price)) => {
            if order_id > 0 && is_upc(trim_spec(upc)) && qty >= 0 && price > 0 {
                Some(CustomerTxDetailView {
                    detail_id: 0,
                    order_id,
                    upc: trim_spec(upc),
                    quantity: qty,
                    price,
                })
            } else {
                None
            }
        },
        _ => None,
    }
}

/// The stored order_details after the rows are migrated in order; `stored` says
/// which inserts succeeded.
pub open spec fn order_details_migrated(items: Seq<CustomerTxDetailView>, rows: Seq<RawCustomerOrderDetailRowView>, stored: Seq<bool>) -> Seq<CustomerTxDetailView>
    decreases rows.len(),
{
    if rows.len() == 0 {
        items
    } else {
        let prev = order_details_migrated(items, rows.drop_last(), stored.drop_last());
        match order_detail_from_row(rows.last()) {
            Some(v) => if stored.last() { prev.push(v) } else { prev },
            None => prev,
        }
    }
}

/// What the migration of the rows hands to the store's `create`, in order:
/// the record of each row that yields one, with whether its insert succeeded.
pub open spec fn order_details_attempts(rows: Seq<RawCustomerOrderDetailRowView>, stored: Seq<bool>) -> Seq<(CustomerTxDetailView, bool)>
    decreases rows.len(),
{
    if rows.len() == 0 {
        Seq::empty()
    } else {
        let prev = order_details_attempts(rows.drop_last(), stored.drop_last());
        match order_detail_from_row(rows.last()) {
            Some(v) => prev.push((v, stored.last())),
            None => prev,
        }
    }
}


/// A row of `tblClubStatement`: id, account activity ("MM/DD/YYYY - MM/DD/YYYY"),
/// file name and import date.
pub type RawClubImportRow = (Option<i32>, Option<String>, Option<String>, Option<Timestamp>);

/// The abstract value of a club statement row.
pub type RawClubImportRowView = (Option<i32>, Option<Seq<char>>, Option<Seq<char>>, Option<Timestamp>);

/// The day one side of an activity range names, parsed by chrono as `%m/%d/%Y` after trimming.
pub open spec fn activity_day(s: Seq<char>) -> Option<NaiveDate> {
    match chrono_parse_date(trim_spec(s), "%m/%d/%Y"@) {
        Ok(d) => Some(d),
        Err(_) => None,
    }
}

/// Midnight of a day.
pub open spec fn midnight(d: NaiveDate) -> NaiveDateTime {
    NaiveDateTime { date: d, time: NaiveTime { hour: 0, minute: 0, second: 0, nano: 0 } }
}

/// The import a statement row yields: a positive id, an activity of exactly
/// two days around " - " (each from midnight), a file name that is not blank
/// (stored trimmed) and a valid import date.
pub open spec fn club_import_from_row(row: RawClubImportRowView) -> Option<ClubImportView> {
    match row {
        (Some(id), Some(act), Some(file), Some(imp)) => {
            match split_in_two(act, " - "@) {
                Some((a, b)) => {
                    if id > 0 && activity_day(a) is Some && activity_day(b) is Some && !is_blank(file)
                        && timestamp_value(imp) is Some {
                        Some(ClubImportView {
                            id,
                            date: timestamp_value(imp).unwrap(),
                            activity_from: midnight(activity_day(a).unwrap()),
                            activity_to: midnight(activity_day(b).unwrap()),
                            source_file: trim_spec(file),
                        })
                    } else {
                        None
                    }
                },
                None => None,
            }
        },
        _ => None,
    }
}

/// The stored club_imports after the rows are migrated in order; `stored` says
/// which inserts succeeded.
pub open spec fn club_imports_migrated(items: Seq<ClubImportView>, rows: Seq<RawClubImportRowView>, stored: Seq<bool>) -> Seq<ClubImportView>
    decreases rows.len(),
{
    if rows.len() == 0 {
        items
    } else {
        let prev = club_imports_migrated(items, rows.drop_last(), stored.drop_last());
        match club_import_from_row(rows.last()) {
            Some(v) => if stored.last() { prev.push(v) } else { prev },
            None => prev,
        }
    }
}

/// What the migration of the rows hands to the store's `create`, in order:
/// the record of each row that yields one, with whether its insert succeeded.
pub open spec fn club_imports_attempts(rows: Seq<RawClubImportRowView>, stored: Seq<bool>) -> Seq<(ClubImportView, bool)>
    decreases rows.len(),
{
    if rows.len() == 0 {
        Seq::empty()
    } else {
        let prev = club_imports_attempts(rows.drop_last(), stored.drop_last());
        match club_import_from_row(rows.last()) {
            Some(v) => prev.push((v, stored.last())),
            None => prev,
        }
    }
}

/// The category name a row of distinct categories yields: a name that is not
/// blank, trimmed.
pub open spec fn category_from_row(row: Option<Seq<char>>) -> Option<Seq<char>> {
    match row {
        Some(s) => if is_blank(s) { None } else { Some(trim_spec(s)) },
        None => None,
    }
}

/// The names of the categories that migrating the rows stores, in order;
/// `stored` says which inserts succeeded.
pub open spec fn category_names_migrated(rows: Seq<Option<Seq<char>>>, stored: Seq<bool>) -> Seq<Seq<char>>
    decreases rows.len(),
{
    if rows.len() == 0 {
        Seq::empty()
    } else {
        let prev = category_names_migrated(rows.drop_last(), stored.drop_last());
        match category_from_row(rows.last()) {
            Some(n) => if stored.last() { prev.push(n) } else { prev },
            None => prev,
        }
    }
}

/// What migrating the category rows hands to the store's `create`, in
/// order: the trimmed name of each row that yields one, with whether the
/// insert succeeded.
pub open spec fn category_attempts(rows: Seq<Option<Seq<char>>>, stored: Seq<bool>) -> Seq<(Seq<char>, bool)>
    decreases rows.len(),
{
    if rows.len() == 0 {
        Seq::empty()
    } else {
        let prev = category_attempts(rows.drop_last(), stored.drop_last());
        match category_from_row(rows.last()) {
            Some(name) => prev.push((name, stored.last())),
            None => prev,
        }
    }
}

/// Whether `after` is `before` followed by one new, active category per name, in order.
pub open spec fn categories_appended(before: Seq<CategoryView>, after: Seq<CategoryView>, names: Seq<Seq<char>>) -> bool {
    &&& after.len() == before.len() + names.len()
    &&& after.take(before.len() as int) == before
    &&& forall|k: int| 0 <= k < names.len() ==> {
        &&& (#[trigger] after[before.len() + k]).name == names[k]
        &&& after[before.len() + k].deleted is None
    }
}


/// A row of `tblClubStatementDetail`: id, statement id, received from,
/// transaction kind, amount in cents (rounded from the stored amount) and posting date.
pub type RawClubTransactionRow = (
    Option<i32>,
    Option<i32>,
    Option<String>,
    Option<String>,
    Option<i32>,
    Option<Timestamp>,
);

/// The abstract value of a club statement detail row.
pub type RawClubTransactionRowView = (
    Option<i32>,
    Option<i32>,
    Option<Seq<char>>,
    Option<Seq<char>>,
    Option<i32>,
    Option<Timestamp>,
);

/// The pattern of an MDOC number in parentheses.
pub open spec fn paren_mdoc_pattern() -> Seq<char> {
    "\\((\\d+)\\)"@
}

/// The pattern of a withdrawal's "name number entity" text.
pub open spec fn withdrawal_pattern() -> Seq<char> {
    "^(.+?)\\s+(\\d+)\\s+(.+)$"@
}

/// The kind of a deposit in the old statements.
pub open spec fn deposit_kind() -> Seq<char> {
    "Recd Client Donation/Dues"@
}

/// The kind of a withdrawal in the old statements.
pub open spec fn withdrawal_kind() -> Seq<char> {
    "W/D General"@
}

/// A number in a captured group, if the group exists and parses as an `i32`.
pub open spec fn group_number(caps: Option<Seq<Option<Seq<char>>>>, i: int) -> Option<i32> {
    match capture_group(caps, i) {
        Some(d) => parse_i32_spec(d),
        None => None,
    }
}

/// The entity name and MDOC of a statement detail, from its trimmed kind and
/// trimmed "received from" text. A deposit needs an MDOC in parentheses; its
/// name is the text before " (", trimmed. A withdrawal whose text matches
/// "name number entity" takes the entity and the number as MDOC when the
/// number parses, else the name and no MDOC; one that does not match keeps
/// the whole text and no MDOC. Other kinds yield nothing.
pub open spec fn club_entity(kind: Seq<char>, received: Seq<char>) -> Option<(Seq<char>, Option<i32>)> {
    if kind == deposit_kind() {
        match group_number(regex_first_captures(paren_mdoc_pattern(), received), 1) {
            Some(m) => Some((trim_spec(before_first(received, " ("@)), Some(m))),
            None => None,
        }
    } else if kind == withdrawal_kind() {
        let caps = regex_first_captures(withdrawal_pattern(), received);
        if caps is Some {
            match group_number(caps, 2) {
                Some(n) => match capture_group(caps, 3) {
                    Some(e) => Some((trim_spec(e), Some(n))),
                    None => None,
                },
                None => match capture_group(caps, 1) {
                    Some(e) => Some((trim_spec(e), None)),
                    None => None,
                },
            }
        } else {
            Some((received, None))
        }
    } else {
        None
    }
}

/// The club transaction a statement detail row yields: positive id and
/// statement id, a known kind with its entity (see `club_entity`), and a valid
/// posting date; a missing amount counts as zero.
pub open spec fn club_transaction_from_row(row: RawClubTransactionRowView) -> Option<ClubTransactionView> {
    match row {
        (Some(id), Some(import_id), Some(received), Some(kind), amount, Some(posted)) => {
            match club_entity(trim_spec(kind), trim_spec(received)) {
                Some((name, mdoc)) => {
                    if id > 0 && import_id > 0 && timestamp_value(posted) is Some {
                        Some(ClubTransactionView {
                            id,
                            import_id,
                            entity_name: name,
                            mdoc,
                            tx_type: if trim_spec(kind) == deposit_kind() {
                                TransactionType::Deposit
                            } else {
                                TransactionType::Withdrawal
                            },
                            amount: match amount {
                                Some(a) => a,
                                None => 0,
                            },
                            date: timestamp_value(posted).unwrap(),
                        })
                    } else {
                        None
                    }
                },
                None => None,
            }
        },
        _ => None,
    }
}

/// The stored club_transactions after the rows are migrated in order; `stored` says
/// which inserts succeeded.
pub open spec fn club_transactions_migrated(items: Seq<ClubTransactionView>, rows: Seq<RawClubTransactionRowView>, stored: Seq<bool>) -> Seq<ClubTransactionView>
    decreases rows.len(),
{
    if rows.len() == 0 {
        items
    } else {
        let prev = club_transactions_migrated(items, rows.drop_last(), stored.drop_last());
        match club_transaction_from_row(rows.last()) {
            Some(v) => if stored.last() { prev.push(v) } else { prev },
            None => prev,
        }
    }
}

/// What the migration of the rows hands to the store's `create`, in order:
/// the record of each row that yields one, with whether its insert succeeded.
pub open spec fn club_transactions_attempts(rows: Seq<RawClubTransactionRowView>, stored: Seq<bool>) -> Seq<(ClubTransactionView, bool)>
    decreases rows.len(),
{
    if rows.len() == 0 {
        Seq::empty()
    } else {
        let prev = club_transactions_attempts(rows.drop_last(), stored.drop_last());
        match club_transaction_from_row(rows.last()) {
            Some(v) => prev.push((v, stored.last())),
            None => prev,
        }
    }
}


/// A row of the product inventory joined with its order: order id, reference
/// number, note, UPC, quantity change, posting date, customer MDOC and operator MDOC.
pub type RawInventoryRow = (
    Option<i32>,
    Option<String>,
    Option<String>,
    Option<String>,
    Option<i32>,
    Option<Timestamp>,
    Option<i32>,
    Option<i32>,
);

/// The abstract value of an inventory row.
pub type RawInventoryRowView = (
    Option<i32>,
    Option<Seq<char>>,
    Option<Seq<char>>,
    Option<Seq<char>>,
    Option<i32>,
    Option<Timestamp>,
    Option<i32>,
    Option<i32>,
);

/// A text, or the empty text when it is missing.
pub open spec fn text_or_empty(s: Option<Seq<char>>) -> Seq<char> {
    match s {
        Some(t) => t,
        None => Seq::empty(),
    }
}

/// A number when it is positive.
pub open spec fn positive(n: Option<i32>) -> Option<i32> {
    match n {
        Some(v) => if v > 0 { Some(v) } else { None },
        None => None,
    }
}

/// The reference of an inventory transaction from the trimmed reference
/// number and note: "ref - note" when both are there, else the one that is,
/// else none.
pub open spec fn inventory_reference(refnum: Option<Seq<char>>, note: Option<Seq<char>>) -> Option<Seq<char>> {
    let r = trim_spec(text_or_empty(refnum));
    let n = trim_spec(text_or_empty(note));
    if r.len() > 0 && n.len() > 0 {
        Some(r + " - "@ + n)
    } else if r.len() > 0 {
        Some(r)
    } else if n.len() > 0 {
        Some(n)
    } else {
        None
    }
}

/// Whether an inventory row passes the checks made before its date: a
/// trimmed UPC of 8, 12 or 14 digits, a non-zero quantity and a posting date.
pub open spec fn inventory_row_checked(row: RawInventoryRowView) -> bool {
    &&& is_upc(trim_spec(text_or_empty(row.3)))
    &&& row.4 is Some && row.4.unwrap() != 0
    &&& row.5 is Some
}

/// Whether an inventory row stops the migration: it passes the first checks
/// but its posting date names no moment.
pub open spec fn inventory_row_aborts(row: RawInventoryRowView) -> bool {
    inventory_row_checked(row) && timestamp_value(row.5.unwrap()) is None
}

/// The inventory transaction a row yields; a missing operator is operator 0,
/// and order id and customer are kept only when positive.
pub open spec fn inventory_from_row(row: RawInventoryRowView) -> Option<InventoryTransactionView> {
    if inventory_row_checked(row) && timestamp_value(row.5.unwrap()) is Some {
        Some(InventoryTransactionView {
            id: None,
            upc: trim_spec(text_or_empty(row.3)),
            quantity_change: row.4.unwrap(),
            operator_mdoc: match row.7 {
                Some(op) => op,
                None => 0,
            },
            customer_mdoc: positive(row.6),
            ref_order_id: positive(row.0),
            reference: inventory_reference(row.1, row.2),
            created_at: timestamp_value(row.5.unwrap()),
        })
    } else {
        None
    }
}

/// The stored inventory after the rows are migrated in order; `stored` says
/// which inserts succeeded.
pub open spec fn inventory_migrated(items: Seq<InventoryTransactionView>, rows: Seq<RawInventoryRowView>, stored: Seq<bool>) -> Seq<InventoryTransactionView>
    decreases rows.len(),
{
    if rows.len() == 0 {
        items
    } else {
        let prev = inventory_migrated(items, rows.drop_last(), stored.drop_last());
        match inventory_from_row(rows.last()) {
            Some(v) => if stored.last() { prev.push(v) } else { prev },
            None => prev,
        }
    }
}

/// What the migration of the rows hands to the store's `create`, in order:
/// the record of each row that yields one, with whether its insert succeeded.
pub open spec fn inventory_attempts(rows: Seq<RawInventoryRowView>, stored: Seq<bool>) -> Seq<(InventoryTransactionView, bool)>
    decreases rows.len(),
{
    if rows.len() == 0 {
        Seq::empty()
    } else {
        let prev = inventory_attempts(rows.drop_last(), stored.drop_last());
        match inventory_from_row(rows.last()) {
            Some(v) => prev.push((v, stored.last())),
            None => prev,
        }
    }
}

/// The repositories the migration fills.
pub struct LegacyMigrationDeps<O, P, C, U, T, I, V, S, D> {
    pub op_repo: O,
    pub product_repo: P,
    pub category_repo: C,
    pub customer_repo: U,
    pub club_transaction_repo: T,
    pub club_imports_repo: I,
    pub inv_repo: V,
    pub customer_transaction_repo: S,
    pub cust_tx_detail_repo: D,
}

/// Migration of the old database's records.
pub struct LegacyMigrationUseCases<O, P, C, U, T, I, V, S, D> {
    pub deps: LegacyMigrationDeps<O, P, C, U, T, I, V, S, D>,
}

impl<
    O: OperatorRepoTrait,
    P: ProductRepoTrait,
    C: CategoryRepoTrait,
    U: CustomerRepoTrait,
    T: ClubTransactionRepoTrait,
    I: ClubImportRepoTrait,
    V: InventoryTransactionRepoTrait,
    S: CustomerTransactionRepoTrait,
    D: CustomerTxDetailRepoTrait,
> LegacyMigrationUseCases<O, P, C, U, T, I, V, S, D> {
    pub fn new(deps: LegacyMigrationDeps<O, P, C, U, T, I, V, S, D>) -> (r: Self)
        ensures
            r.deps == deps,
    {
        LegacyMigrationUseCases { deps }
    }

    fn migrate_operator_row(&mut self, row: &RawOperatorRow) -> (out: Ghost<(bool, bool)>)
        ensures
            final(self).deps.op_repo.operators() == operator_step(
                old(self).deps.op_repo.operators(),
                row.deep_view(),
                out@.0,
                out@.1,
            ),
            final(self).deps.op_repo.create_log() == match operator_from_row(row.deep_view()) {
                Some(op) => if out@.0 && operator_with_mdoc(old(self).deps.op_repo.operators(), op.mdoc) is Some {
                    old(self).deps.op_repo.create_log()
                } else {
                    old(self).deps.op_repo.create_log().push((op, out@.1))
                },
                None => old(self).deps.op_repo.create_log(),
            },
    {
        let mdoc = match row.0 {
            Some(m) => m,
            None => {
                return Ghost((false, false));
            },
        };
        if mdoc <= 0 {
            return Ghost((false, false));
        }
        let name = match &row.1 {
            Some(s) => trim(s.as_str()),
            None => {
                return Ghost((false, false));
            },
        };
        if name.unicode_len() == 0 {
            return Ghost((false, false));
        }
        let found = self.deps.op_repo.get_by_mdoc(mdoc);
        let looked_up = found.is_ok();
        if let Ok(Some(_)) = found {
            return Ghost((true, false));
        }
        let start = match row.2 {
            Some(ts) => match ts_to_naive(ts) {
                Ok(dt) => dt,
                Err(_) => {
                    return Ghost((looked_up, false));
                },
            },
            None => {
                return Ghost((looked_up, false));
            },
        };
        let stop = match row.3 {
            Some(ts) => match ts_to_naive(ts) {
                Ok(dt) => Some(dt),
                Err(_) => {
                    return Ghost((looked_up, false));
                },
            },
            None => None,
        };
        let op = Operator { mdoc, name, start: Some(start), stop };
        let stored = self.deps.op_repo.create(&op);
        Ghost((looked_up, stored.is_ok()))
    }

    /// Migrates operator rows in order. A row is skipped when its MDOC is
    /// missing or not positive, its name is missing or blank, an operator with
    /// its MDOC is already stored, or its start is missing or invalid, or its
    /// stop invalid; otherwise the operator is stored with its name trimmed.
    /// Storage failures skip the row as well; the migration itself succeeds.
    pub fn migrate_operators_from_rows(&mut self, raw_rows: Vec<RawOperatorRow>) -> (r: Result<(), AppError>)
        ensures
            r is Ok,
            exists|looked_up: Seq<bool>, stored: Seq<bool>|
                looked_up.len() == raw_rows@.len() && stored.len() == raw_rows@.len()
                && #[trigger] operators_migrated(
                    old(self).deps.op_repo.operators(),
                    raw_rows.deep_view(),
                    looked_up,
                    stored,
                ) == final(self).deps.op_repo.operators()
                && final(self).deps.op_repo.create_log() == old(self).deps.op_repo.create_log() + operators_attempts(
                    old(self).deps.op_repo.operators(),
                    raw_rows.deep_view(),
                    looked_up,
                    stored,
                ),
    {
        let ghost rows = raw_rows.deep_view();
        let ghost start = self.deps.op_repo.operators();
        let ghost log0 = self.deps.op_repo.create_log();
        let ghost mut looked_up: Seq<bool> = Seq::empty();
        let ghost mut stored: Seq<bool> = Seq::empty();
        let n = raw_rows.len();
        let mut i: usize = 0;
        while i < n
            invariant
                n == raw_rows@.len(),
                rows == raw_rows.deep_view(),
                i <= n,
                looked_up.len() == i,
                stored.len() == i,
                self.deps.op_repo.operators() == operators_migrated(start, rows.take(i as int), looked_up, stored),
                self.deps.op_repo.create_log() == log0 + operators_attempts(start, rows.take(i as int), looked_up, stored),
            decreases n - i,
        {
            let out = self.migrate_operator_row(&raw_rows[i]);
            proof {
                assert(rows.take(i + 1).drop_last() =~= rows.take(i as int));
                assert(rows.take(i + 1).last() == rows[i as int]);
                let prev_looked_up = looked_up;
                let prev_stored = stored;
                looked_up = looked_up.push(out@.0);
                stored = stored.push(out@.1);
                assert(looked_up.drop_last() =~= prev_looked_up);
                assert(stored.drop_last() =~= prev_stored);
                if let Some(op) = operator_from_row(rows[i as int]) {
                    lemma_concat_push(log0, operators_attempts(start, rows.take(i as int), prev_looked_up, prev_stored), (op, out@.1));
                }
            }
            i = i + 1;
        }
        assert(rows.take(n as int) =~= rows);
        Ok(())
    }

    fn migrate_product_row(&mut self, row: &RawProductRow) -> (stored: Ghost<bool>)
        ensures
            final(self).deps.product_repo.products() == match product_from_row(row.deep_view()) {
                Some(v) => if stored@ { old(self).deps.product_repo.products().push(v) } else { old(self).deps.product_repo.products() },
                None => old(self).deps.product_repo.products(),
            },
            final(self).deps.product_repo.create_log() == match product_from_row(row.deep_view()) {
                Some(v) => old(self).deps.product_repo.create_log().push((v, stored@)),
                None => old(self).deps.product_repo.create_log(),
            },
    {
        let upc = match &row.0 {
            Some(s) => trim(s.as_str()),
            None => {
                return Ghost(false);
            },
        };
        if !valid_upc(upc.as_str()) {
            return Ghost(false);
        }
        let category = match &row.1 {
            Some(s) => trim(s.as_str()),
            None => {
                return Ghost(false);
            },
        };
        if category.unicode_len() == 0 {
            return Ghost(false);
        }
        let desc = match &row.2 {
            Some(s) => trim(s.as_str()),
            None => {
                return Ghost(false);
            },
        };
        if desc.unicode_len() == 0 {
            return Ghost(false);
        }
        let price = match row.3 {
            Some(p) => p,
            None => {
                return Ghost(false);
            },
        };
        if price <= 0 {
            return Ghost(false);
        }
        let updated = match row.4 {
            Some(ts) => match ts_to_naive(ts) {
                Ok(dt) => dt,
                Err(_) => {
                    return Ghost(false);
                },
            },
            None => {
                return Ghost(false);
            },
        };
        let added = match row.5 {
            Some(ts) => match ts_to_naive(ts) {
                Ok(dt) => dt,
                Err(_) => {
                    return Ghost(false);
                },
            },
            None => {
                return Ghost(false);
            },
        };
        let deleted = match row.6 {
            Some(ts) => match ts_to_naive(ts) {
                Ok(dt) => Some(dt),
                Err(_) => {
                    return Ghost(false);
                },
            },
            None => None,
        };
        let prod = Product {
            upc,
            category,
            desc,
            price,
            updated: Some(updated),
            added: Some(added),
            deleted,
        };
        let r = self.deps.product_repo.create(&prod);
        Ghost(r.is_ok())
    }

    /// Migrates product rows in order (see `product_from_row`); rows that break a
    /// rule, and rows whose insert fails, are skipped.
    pub fn migrate_products_from_rows(&mut self, raw_rows: Vec<RawProductRow>) -> (r: Result<(), AppError>)
        ensures
            r is Ok,
            exists|stored: Seq<bool>|
                stored.len() == raw_rows@.len()
                && #[trigger] products_migrated(
                    old(self).deps.product_repo.products(),
                    raw_rows.deep_view(),
                    stored,
                ) == final(self).deps.product_repo.products()
                && final(self).deps.product_repo.create_log() == old(self).deps.product_repo.create_log() + products_attempts(raw_rows.deep_view(), stored),
    {
        let ghost rows = raw_rows.deep_view();
        let ghost start = self.deps.product_repo.products();
        let ghost log0 = self.deps.product_repo.create_log();
        let ghost mut stored: Seq<bool> = Seq::empty();
        let n = raw_rows.len();
        let mut i: usize = 0;
        while i < n
            invariant
                n == raw_rows@.len(),
                rows == raw_rows.deep_view(),
                i <= n,
                stored.len() == i,
                self.deps.product_repo.products() == products_migrated(start, rows.take(i as int), stored),
                self.deps.product_repo.create_log() == log0 + products_attempts(rows.take(i as int), stored),
            decreases n - i,
        {
            let out = self.migrate_product_row(&raw_rows[i]);
            proof {
                assert(rows.take(i + 1).drop_last() =~= rows.take(i as int));
                assert(rows.take(i + 1).last() == rows[i as int]);
                let prev = stored;
                stored = stored.push(out@);
                if let Some(v) = product_from_row(rows[i as int]) {
                    lemma_concat_push(log0, products_attempts(rows.take(i as int), prev), (v, out@));
                }
                assert(stored.drop_last() =~= prev);
            }
            i = i + 1;
        }
        assert(rows.take(n as int) =~= rows);
        Ok(())
    }

    fn migrate_customer_row(&mut self, row: &RawCustomerRow) -> (stored: Ghost<bool>)
        ensures
            final(self).deps.customer_repo.customers() == match customer_from_row(row.deep_view()) {
                Some(v) => if stored@ { old(self).deps.customer_repo.customers().push(v) } else { old(self).deps.customer_repo.customers() },
                None => old(self).deps.customer_repo.customers(),
            },
            final(self).deps.customer_repo.create_log() == match customer_from_row(row.deep_view()) {
                Some(v) => old(self).deps.customer_repo.create_log().push((v, stored@)),
                None => old(self).deps.customer_repo.create_log(),
            },
    {
        let mdoc = match row.0 {
            Some(m) => m,
            None => {
                return Ghost(false);
            },
        };
        if mdoc <= 0 {
            return Ghost(false);
        }
        let name = match &row.1 {
            Some(s) => trim(s.as_str()),
            None => {
                return Ghost(false);
            },
        };
        if name.unicode_len() == 0 {
            return Ghost(false);
        }
        let dt = match row.2 {
            Some(ts) => match ts_to_naive(ts) {
                Ok(dt) => dt,
                Err(_) => {
                    return Ghost(false);
                },
            },
            None => {
                return Ghost(false);
            },
        };
        let cust = Customer { mdoc, name, added: dt, updated: dt };
        let r = self.deps.customer_repo.create(&cust);
        Ghost(r.is_ok())
    }

    /// Migrates customer rows in order (see `customer_from_row`); rows that
    /// break a rule, and rows whose insert fails, are skipped.
    pub fn migrate_customers_from_rows(&mut self, raw_rows: Vec<RawCustomerRow>) -> (r: Result<(), AppError>)
        ensures
            r is Ok,
            exists|stored: Seq<bool>|
                stored.len() == raw_rows@.len()
                && #[trigger] customers_migrated(
                    old(self).deps.customer_repo.customers(),
                    raw_rows.deep_view(),
                    stored,
                ) == final(self).deps.customer_repo.customers()
                && final(self).deps.customer_repo.create_log() == old(self).deps.customer_repo.create_log() + customers_attempts(raw_rows.deep_view(), stored),
    {
        let ghost rows = raw_rows.deep_view();
        let ghost start = self.deps.customer_repo.customers();
        let ghost log0 = self.deps.customer_repo.create_log();
        let ghost mut stored: Seq<bool> = Seq::empty();
        let n = raw_rows.len();
        let mut i: usize = 0;
        while i < n
            invariant
                n == raw_rows@.len(),
                rows == raw_rows.deep_view(),
                i <= n,
                stored.len() == i,
                self.deps.customer_repo.customers() == customers_migrated(start, rows.take(i as int), stored),
                self.deps.customer_repo.create_log() == log0 + customers_attempts(rows.take(i as int), stored),
            decreases n - i,
        {
            let out = self.migrate_customer_row(&raw_rows[i]);
            proof {
                assert(rows.take(i + 1).drop_last() =~= rows.take(i as int));
                assert(rows.take(i + 1).last() == rows[i as int]);
                let prev = stored;
                stored = stored.push(out@);
                if let Some(v) = customer_from_row(rows[i as int]) {
                    lemma_concat_push(log0, customers_attempts(rows.take(i as int), prev), (v, out@));
                }
                assert(stored.drop_last() =~= prev);
            }
            i = i + 1;
        }
        assert(rows.take(n as int) =~= rows);
        Ok(())
    }

    fn migrate_customer_order_row(&mut self, row: &RawCustomerOrderRow) -> (stored: Ghost<bool>)
        ensures
            final(self).deps.customer_transaction_repo.transactions() == match customer_order_from_row(row.deep_view()) {
                Some(v) => if stored@ { old(self).deps.customer_transaction_repo.transactions().push(v) } else { old(self).deps.customer_transaction_repo.transactions() },
                None => old(self).deps.customer_transaction_repo.transactions(),
            },
            final(self).deps.customer_transaction_repo.create_log() == match customer_order_from_row(row.deep_view()) {
                Some(v) => old(self).deps.customer_transaction_repo.create_log().push((v, stored@)),
                None => old(self).deps.customer_transaction_repo.create_log(),
            },
    {
        let customer_mdoc = match row.1 {
            Some(n) => n,
            None => {
                return Ghost(false);
            },
        };
        if customer_mdoc <= 0 {
            return Ghost(false);
        }
        let operator_mdoc = match row.2 {
            Some(n) => n,
            None => {
                return Ghost(false);
            },
        };
        if operator_mdoc <= 0 {
            return Ghost(false);
        }
        let date = match row.3 {
            Some(ts) => match ts_to_naive(ts) {
                Ok(dt) => dt,
                Err(_) => {
                    return Ghost(false);
                },
            },
            None => {
                return Ghost(false);
            },
        };
        let note = match &row.4 {
            Some(s) => {
                let t = trim(s.as_str());
                if t.unicode_len() == 0 {
                    None
                } else {
                    Some(t)
                }
            },
            None => None,
        };
        let order_id = match row.0 {
            Some(n) => n,
            None => {
                return Ghost(false);
            },
        };
        if order_id <= 0 {
            return Ghost(false);
        }
        let tx = CustomerTransaction { order_id, customer_mdoc, operator_mdoc, date: Some(date), note };
        let r = self.deps.customer_transaction_repo.create(&tx);
        Ghost(r.is_ok())
    }

    /// Migrates order rows in order (see `customer_order_from_row`); rows that
    /// break a rule, and rows whose insert fails, are skipped.
    pub fn migrate_customer_orders_from_rows(&mut self, raw_rows: Vec<RawCustomerOrderRow>) -> (r: Result<(), AppError>)
        ensures
            r is Ok,
            exists|stored: Seq<bool>|
                stored.len() == raw_rows@.len()
                && #[trigger] customer_orders_migrated(
                    old(self).deps.customer_transaction_repo.transactions(),
                    raw_rows.deep_view(),
                    stored,
                ) == final(self).deps.customer_transaction_repo.transactions()
                && final(self).deps.customer_transaction_repo.create_log() == old(self).deps.customer_transaction_repo.create_log() + customer_orders_attempts(raw_rows.deep_view(), stored),
    {
        let ghost rows = raw_rows.deep_view();
        let ghost start = self.deps.customer_transaction_repo.transactions();
        let ghost log0 = self.deps.customer_transaction_repo.create_log();
        let ghost mut stored: Seq<bool> = Seq::empty();
        let n = raw_rows.len();
        let mut i: usize = 0;
        while i < n
            invariant
                n == raw_rows@.len(),
                rows == raw_rows.deep_view(),
                i <= n,
                stored.len() == i,
                self.deps.customer_transaction_repo.transactions() == customer_orders_migrated(start, rows.take(i as int), stored),
                self.deps.customer_transaction_repo.create_log() == log0 + customer_orders_attempts(rows.take(i as int), stored),
            decreases n - i,
        {
            let out = self.migrate_customer_order_row(&raw_rows[i]);
            proof {
                assert(rows.take(i + 1).drop_last() =~= rows.take(i as int));
                assert(rows.take(i + 1).last() == rows[i as int]);
                let prev = stored;
                stored = stored.push(out@);
                if let Some(v) = customer_order_from_row(rows[i as int]) {
                    lemma_concat_push(log0, customer_orders_attempts(rows.take(i as int), prev), (v, out@));
                }
                assert(stored.drop_last() =~= prev);
            }
            i = i + 1;
        }
        assert(rows.take(n as int) =~= rows);
        Ok(())
    }

    fn migrate_order_detail_row(&mut self, row: &RawCustomerOrderDetailRow) -> (stored: Ghost<bool>)
        ensures
            final(self).deps.cust_tx_detail_repo.details() == match order_detail_from_row(row.deep_view()) {
                Some(v) => if stored@ { old(self).deps.cust_tx_detail_repo.details().push(v) } else { old(self).deps.cust_tx_detail_repo.details() },
                None => old(self).deps.cust_tx_detail_repo.details(),
            },
            final(self).deps.cust_tx_detail_repo.create_log() == match order_detail_from_row(row.deep_view()) {
                Some(v) => old(self).deps.cust_tx_detail_repo.create_log().push((v, stored@)),
                None => old(self).deps.cust_tx_detail_repo.create_log(),
            },
    {
        let order_id = match row.1 {
            Some(n) => n,
            None => {
                return Ghost(false);
            },
        };
        if order_id <= 0 {
            return Ghost(false);
        }
        let upc = match &row.2 {
            Some(s) => trim(s.as_str()),
            None => {
                return Ghost(false);
            },
        };
        if !valid_upc(upc.as_str()) {
            return Ghost(false);
        }
        let quantity = match row.3 {
            Some(n) => n,
            None => {
                return Ghost(false);
            },
        };
        if quantity < 0 {
            return Ghost(false);
        }
        let price = match row.4 {
            Some(p) => p,
            None => {
                return Ghost(false);
            },
        };
        if price <= 0 {
            return Ghost(false);
        }
        let detail = CustomerTxDetail { detail_id: 0, order_id, upc, quantity, price };
        let r = self.deps.cust_tx_detail_repo.create(&detail);
        Ghost(r.is_ok())
    }

    /// Migrates order detail rows in order (see `order_detail_from_row`); rows
    /// that break a rule, and rows whose insert fails, are skipped.
    pub fn migrate_customer_order_details_from_rows(&mut self, raw_rows: Vec<RawCustomerOrderDetailRow>) -> (r: Result<(), AppError>)
        ensures
            r is Ok,
            exists|stored: Seq<bool>|
                stored.len() == raw_rows@.len()
                && #[trigger] order_details_migrated(
                    old(self).deps.cust_tx_detail_repo.details(),
                    raw_rows.deep_view(),
                    stored,
                ) == final(self).deps.cust_tx_detail_repo.details()
                && final(self).deps.cust_tx_detail_repo.create_log() == old(self).deps.cust_tx_detail_repo.create_log() + order_details_attempts(raw_rows.deep_view(), stored),
    {
        let ghost rows = raw_rows.deep_view();
        let ghost start = self.deps.cust_tx_detail_repo.details();
        let ghost log0 = self.deps.cust_tx_detail_repo.create_log();
        let ghost mut stored: Seq<bool> = Seq::empty();
        let n = raw_rows.len();
        let mut i: usize = 0;
        while i < n
            invariant
                n == raw_rows@.len(),
                rows == raw_rows.deep_view(),
                i <= n,
                stored.len() == i,
                self.deps.cust_tx_detail_repo.details() == order_details_migrated(start, rows.take(i as int), stored),
                self.deps.cust_tx_detail_repo.create_log() == log0 + order_details_attempts(rows.take(i as int), stored),
            decreases n - i,
        {
            let out = self.migrate_order_detail_row(&raw_rows[i]);
            proof {
                assert(rows.take(i + 1).drop_last() =~= rows.take(i as int));
                assert(rows.take(i + 1).last() == rows[i as int]);
                let prev = stored;
                stored = stored.push(out@);
                if let Some(v) = order_detail_from_row(rows[i as int]) {
                    lemma_concat_push(log0, order_details_attempts(rows.take(i as int), prev), (v, out@));
                }
                assert(stored.drop_last() =~= prev);
            }
            i = i + 1;
        }
        assert(rows.take(n as int) =~= rows);
        Ok(())
    }

    fn migrate_club_import_row(&mut self, row: &RawClubImportRow) -> (stored: Ghost<bool>)
        ensures
            final(self).deps.club_imports_repo.imports() == match club_import_from_row(row.deep_view()) {
                Some(v) => if stored@ { old(self).deps.club_imports_repo.imports().push(v) } else { old(self).deps.club_imports_repo.imports() },
                None => old(self).deps.club_imports_repo.imports(),
            },
            final(self).deps.club_imports_repo.create_log() == match club_import_from_row(row.deep_view()) {
                Some(v) => old(self).deps.club_imports_repo.create_log().push((v, stored@)),
                None => old(self).deps.club_imports_repo.create_log(),
            },
    {
        let id = match row.0 {
            Some(i) => i,
            None => {
                return Ghost(false);
            },
        };
        if id <= 0 {
            return Ghost(false);
        }
        let act = match &row.1 {
            Some(s) => s,
            None => {
                return Ghost(false);
            },
        };
        proof {
            reveal_strlit(" - ");
        }
        let (a, b) = match split_two(act.as_str(), " - ") {
            Some(parts) => parts,
            None => {
                return Ghost(false);
            },
        };
        let a_trim = trim(a.as_str());
        let from_date = match parse_date(a_trim.as_str(), "%m/%d/%Y") {
            Ok(d) => d,
            Err(_) => {
                return Ghost(false);
            },
        };
        let b_trim = trim(b.as_str());
        let to_date = match parse_date(b_trim.as_str(), "%m/%d/%Y") {
            Ok(d) => d,
            Err(_) => {
                return Ghost(false);
            },
        };
        let time = match NaiveTime::from_hms_opt(0, 0, 0) {
            Some(t) => t,
            None => {
                return Ghost(false);
            },
        };
        let activity_from = NaiveDateTime::new(from_date, time);
        let activity_to = NaiveDateTime::new(to_date, time);
        let source_file = match &row.2 {
            Some(f) => trim(f.as_str()),
            None => {
                return Ghost(false);
            },
        };
        if source_file.unicode_len() == 0 {
            return Ghost(false);
        }
        let date = match row.3 {
            Some(ts) => match ts_to_naive(ts) {
                Ok(dt) => dt,
                Err(_) => {
                    return Ghost(false);
                },
            },
            None => {
                return Ghost(false);
            },
        };
        let stmt = ClubImport { id, date, activity_from, activity_to, source_file };
        let r = self.deps.club_imports_repo.create(&stmt);
        Ghost(r.is_ok())
    }

    /// Migrates club statement rows in order (see `club_import_from_row`); rows
    /// that break a rule, and rows whose insert fails, are skipped.
    pub fn migrate_club_imports_from_rows(&mut self, raw_rows: Vec<RawClubImportRow>) -> (r: Result<(), AppError>)
        ensures
            r is Ok,
            exists|stored: Seq<bool>|
                stored.len() == raw_rows@.len()
                && #[trigger] club_imports_migrated(
                    old(self).deps.club_imports_repo.imports(),
                    raw_rows.deep_view(),
                    stored,
                ) == final(self).deps.club_imports_repo.imports()
                && final(self).deps.club_imports_repo.create_log() == old(self).deps.club_imports_repo.create_log() + club_imports_attempts(raw_rows.deep_view(), stored),
    {
        let ghost rows = raw_rows.deep_view();
        let ghost start = self.deps.club_imports_repo.imports();
        let ghost log0 = self.deps.club_imports_repo.create_log();
        let ghost mut stored: Seq<bool> = Seq::empty();
        let n = raw_rows.len();
        let mut i: usize = 0;
        while i < n
            invariant
                n == raw_rows@.len(),
                rows == raw_rows.deep_view(),
                i <= n,
                stored.len() == i,
                self.deps.club_imports_repo.imports() == club_imports_migrated(start, rows.take(i as int), stored),
                self.deps.club_imports_repo.create_log() == log0 + club_imports_attempts(rows.take(i as int), stored),
            decreases n - i,
        {
            let out = self.migrate_club_import_row(&raw_rows[i]);
            proof {
                assert(rows.take(i + 1).drop_last() =~= rows.take(i as int));
                assert(rows.take(i + 1).last() == rows[i as int]);
                let prev = stored;
                stored = stored.push(out@);
                if let Some(v) = club_import_from_row(rows[i as int]) {
                    lemma_concat_push(log0, club_imports_attempts(rows.take(i as int), prev), (v, out@));
                }
                assert(stored.drop_last() =~= prev);
            }
            i = i + 1;
        }
        assert(rows.take(n as int) =~= rows);
        Ok(())
    }

    /// Migrates the distinct category names in order: a name that is not blank
    /// is stored trimmed; missing or blank names, and failed inserts, are skipped.
    pub fn migrate_categories_from_rows(&mut self, raw_rows: Vec<Option<String>>) -> (r: Result<(), AppError>)
        ensures
            r is Ok,
            exists|stored: Seq<bool>|
                stored.len() == raw_rows@.len() && #[trigger] categories_appended(
                    old(self).deps.category_repo.categories(),
                    final(self).deps.category_repo.categories(),
                    category_names_migrated(raw_rows.deep_view(), stored),
                ) && final(self).deps.category_repo.create_log() == old(self).deps.category_repo.create_log()
                    + category_attempts(raw_rows.deep_view(), stored),
    {
        let ghost rows = raw_rows.deep_view();
        let ghost start = self.deps.category_repo.categories();
        let ghost log0 = self.deps.category_repo.create_log();
        let ghost mut stored: Seq<bool> = Seq::empty();
        let n = raw_rows.len();
        let mut i: usize = 0;
        assert(categories_appended(start, start, category_names_migrated(rows.take(0), stored))) by {
            assert(start.take(start.len() as int) =~= start);
        }
        while i < n
            invariant
                n == raw_rows@.len(),
                rows == raw_rows.deep_view(),
                i <= n,
                stored.len() == i,
                categories_appended(start, self.deps.category_repo.categories(), category_names_migrated(rows.take(i as int), stored)),
                self.deps.category_repo.create_log() == log0 + category_attempts(rows.take(i as int), stored),
            decreases n - i,
        {
            let ghost before = self.deps.category_repo.categories();
            let ghost names = category_names_migrated(rows.take(i as int), stored);
            let mut ok = false;
            match &raw_rows[i] {
                Some(s) => {
                    let name = trim(s.as_str());
                    if name.unicode_len() != 0 {
                        let r = self.deps.category_repo.create(name);
                        ok = r.is_ok();
                    }
                },
                None => {},
            }
            proof {
                assert(rows.take(i + 1).drop_last() =~= rows.take(i as int));
                assert(rows.take(i + 1).last() == rows[i as int]);
                let prev = stored;
                stored = stored.push(ok);
                assert(stored.drop_last() =~= prev);
                if let Some(name) = category_from_row(rows[i as int]) {
                    lemma_concat_push(log0, category_attempts(rows.take(i as int), prev), (name, ok));
                }
                let after = self.deps.category_repo.categories();
                let names2 = category_names_migrated(rows.take(i + 1), stored);
                if ok {
                    assert(names2 == names.push(category_from_row(rows[i as int]).unwrap()));
                    assert(after.take(start.len() as int) =~= before.take(start.len() as int));
                    assert forall|k: int| 0 <= k < names2.len() implies {
                        &&& (#[trigger] after[start.len() + k]).name == names2[k]
                        &&& after[start.len() + k].deleted is None
                    } by {
                        if k < names.len() {
                            assert(after[start.len() + k] == before[start.len() + k]);
                        }
                    }
                } else {
                    assert(names2 == names);
                }
            }
            i = i + 1;
        }
        assert(rows.take(n as int) =~= rows);
        Ok(())
    }

    fn club_entity_of(kind: &String, received: &String) -> (r: Option<(String, Option<i32>)>)
        requires
            regex_compiled(paren_mdoc_pattern()) is Ok,
            regex_compiled(withdrawal_pattern()) is Ok,
        ensures
            match r {
                Some((name, mdoc)) => club_entity(kind@, received@) == Some((name@, mdoc)),
                None => club_entity(kind@, received@) is None,
            },
    {
        let deposit = String::from_str("Recd Client Donation/Dues");
        let withdrawal = String::from_str("W/D General");
        if *kind == deposit {
            let caps = first_captures("\\((\\d+)\\)", received.as_str());
            let mdoc = match group(&caps, 1) {
                Some(d) => parse_i32(d.as_str()),
                None => None,
            };
            match mdoc {
                Some(m) => {
                    proof {
                        reveal_strlit(" (");
                    }
                    let head = text_before(received.as_str(), " (");
                    Some((trim(head.as_str()), Some(m)))
                },
                None => None,
            }
        } else if *kind == withdrawal {
            let caps = first_captures("^(.+?)\\s+(\\d+)\\s+(.+)$", received.as_str());
            if caps.is_some() {
                let num = match group(&caps, 2) {
                    Some(d) => parse_i32(d.as_str()),
                    None => None,
                };
                match num {
                    Some(n) => match group(&caps, 3) {
                        Some(e) => Some((trim(e.as_str()), Some(n))),
                        None => None,
                    },
                    None => match group(&caps, 1) {
                        Some(e) => Some((trim(e.as_str()), None)),
                        None => None,
                    },
                }
            } else {
                Some((received.clone(), None))
            }
        } else {
            None
        }
    }


    fn migrate_club_transaction_row(&mut self, row: &RawClubTransactionRow) -> (stored: Ghost<bool>)
        requires
            regex_compiled(paren_mdoc_pattern()) is Ok,
            regex_compiled(withdrawal_pattern()) is Ok,
        ensures
            final(self).deps.club_transaction_repo.transactions() == match club_transaction_from_row(row.deep_view()) {
                Some(v) => if stored@ { old(self).deps.club_transaction_repo.transactions().push(v) } else { old(self).deps.club_transaction_repo.transactions() },
                None => old(self).deps.club_transaction_repo.transactions(),
            },
            final(self).deps.club_transaction_repo.create_log() == match club_transaction_from_row(row.deep_view()) {
                Some(v) => old(self).deps.club_transaction_repo.create_log().push((v, stored@)),
                None => old(self).deps.club_transaction_repo.create_log(),
            },
    {
        let id = match row.0 {
            Some(i) => i,
            None => {
                return Ghost(false);
            },
        };
        if id <= 0 {
            return Ghost(false);
        }
        let import_id = match row.1 {
            Some(i) => i,
            None => {
                return Ghost(false);
            },
        };
        if import_id <= 0 {
            return Ghost(false);
        }
        let received = match &row.2 {
            Some(s) => trim(s.as_str()),
            None => {
                return Ghost(false);
            },
        };
        let kind = match &row.3 {
            Some(s) => trim(s.as_str()),
            None => {
                return Ghost(false);
            },
        };
        let amount = match row.4 {
            Some(a) => a,
            None => 0,
        };
        let (entity_name, mdoc) = match Self::club_entity_of(&kind, &received) {
            Some(e) => e,
            None => {
                return Ghost(false);
            },
        };
        let deposit = String::from_str("Recd Client Donation/Dues");
        let tx_type = if kind == deposit {
            TransactionType::Deposit
        } else {
            TransactionType::Withdrawal
        };
        let date = match row.5 {
            Some(ts) => match ts_to_naive(ts) {
                Ok(dt) => dt,
                Err(_) => {
                    return Ghost(false);
                },
            },
            None => {
                return Ghost(false);
            },
        };
        let detail = ClubTransaction { id, import_id, entity_name, mdoc, tx_type, amount, date };
        let r = self.deps.club_transaction_repo.create(&detail);
        Ghost(r.is_ok())
    }

    /// Migrates club statement detail rows in order (see
    /// `club_transaction_from_row`); rows that break a rule, and rows whose
    /// insert fails, are skipped. The two patterns are compiled first; if one
    /// does not compile, nothing is stored and its error is returned.
    pub fn migrate_club_transactions_from_rows(&mut self, raw_rows: Vec<RawClubTransactionRow>) -> (r: Result<(), AppError>)
        ensures
            match r {
                Ok(()) => regex_compiled(paren_mdoc_pattern()) is Ok && regex_compiled(withdrawal_pattern()) is Ok,
                Err(e) => final(self).deps.club_transaction_repo.transactions() == old(self).deps.club_transaction_repo.transactions()
                    && final(self).deps.club_transaction_repo.create_log() == old(self).deps.club_transaction_repo.create_log()
                    && (e matches AppError::Unexpected(m) && (
                    match regex_compiled(paren_mdoc_pattern()) {
                        Err(c) => m@ == "invalid re_paren: "@ + c,
                        Ok(()) => (regex_compiled(withdrawal_pattern()) matches Err(c) && m@ == "invalid re_wd: "@ + c),
                    })),
            },
            r is Ok ==> exists|stored: Seq<bool>|
                stored.len() == raw_rows@.len()
                && #[trigger] club_transactions_migrated(
                    old(self).deps.club_transaction_repo.transactions(),
                    raw_rows.deep_view(),
                    stored,
                ) == final(self).deps.club_transaction_repo.transactions()
                && final(self).deps.club_transaction_repo.create_log() == old(self).deps.club_transaction_repo.create_log() + club_transactions_attempts(raw_rows.deep_view(), stored),
    {
        match check_pattern("\\((\\d+)\\)") {
            Ok(()) => {},
            Err(e) => {
                return Err(AppError::Unexpected(String::from_str("invalid re_paren: ").concat(e.as_str())));
            },
        }
        match check_pattern("^(.+?)\\s+(\\d+)\\s+(.+)$") {
            Ok(()) => {},
            Err(e) => {
                return Err(AppError::Unexpected(String::from_str("invalid re_wd: ").concat(e.as_str())));
            },
        }
        let ghost rows = raw_rows.deep_view();
        let ghost start = self.deps.club_transaction_repo.transactions();
        let ghost log0 = self.deps.club_transaction_repo.create_log();
        let ghost mut stored: Seq<bool> = Seq::empty();
        let n = raw_rows.len();
        let mut i: usize = 0;
        while i < n
            invariant
                n == raw_rows@.len(),
                rows == raw_rows.deep_view(),
                i <= n,
                stored.len() == i,
                regex_compiled(paren_mdoc_pattern()) is Ok,
                regex_compiled(withdrawal_pattern()) is Ok,
                self.deps.club_transaction_repo.transactions() == club_transactions_migrated(start, rows.take(i as int), stored),
                self.deps.club_transaction_repo.create_log() == log0 + club_transactions_attempts(rows.take(i as int), stored),
            decreases n - i,
        {
            let out = self.migrate_club_transaction_row(&raw_rows[i]);
            proof {
                assert(rows.take(i + 1).drop_last() =~= rows.take(i as int));
                assert(rows.take(i + 1).last() == rows[i as int]);
                let prev = stored;
                stored = stored.push(out@);
                if let Some(v) = club_transaction_from_row(rows[i as int]) {
                    lemma_concat_push(log0, club_transactions_attempts(rows.take(i as int), prev), (v, out@));
                }
                assert(stored.drop_last() =~= prev);
            }
            i = i + 1;
        }
        assert(rows.take(n as int) =~= rows);
        Ok(())
    }

    fn trimmed_or_empty(s: &Option<String>) -> (r: String)
        ensures
            r@ == trim_spec(text_or_empty(s.deep_view())),
    {
        match s {
            Some(t) => trim(t.as_str()),
            None => {
                let e = String::new();
                let t = trim(e.as_str());
                t
            },
        }
    }

    fn migrate_inventory_row(&mut self, row: &RawInventoryRow) -> (r: Result<Ghost<bool>, AppError>)
        ensures
            match r {
                Ok(stored) => !inventory_row_aborts(row.deep_view())
                    && final(self).deps.inv_repo.transactions() == match inventory_from_row(row.deep_view()) {
                        Some(v) => if stored@ { old(self).deps.inv_repo.transactions().push(v) } else { old(self).deps.inv_repo.transactions() },
                        None => old(self).deps.inv_repo.transactions(),
                    }
                    && final(self).deps.inv_repo.create_log() == match inventory_from_row(row.deep_view()) {
                        Some(v) => old(self).deps.inv_repo.create_log().push((v, stored@)),
                        None => old(self).deps.inv_repo.create_log(),
                    },
                Err(e) => inventory_row_aborts(row.deep_view())
                    && final(self).deps.inv_repo.transactions() == old(self).deps.inv_repo.transactions()
                    && final(self).deps.inv_repo.create_log() == old(self).deps.inv_repo.create_log()
                    && (e matches AppError::Unexpected(m) && m@ == timestamp_error(row.5.unwrap())),
            },
    {
        let ref_order_id = match row.0 {
            Some(i) => if i > 0 { Some(i) } else { None },
            None => None,
        };
        let refnum = Self::trimmed_or_empty(&row.1);
        let note = Self::trimmed_or_empty(&row.2);
        let reference = if refnum.unicode_len() > 0 && note.unicode_len() > 0 {
            Some(refnum.concat(" - ").concat(note.as_str()))
        } else if refnum.unicode_len() > 0 {
            Some(refnum)
        } else if note.unicode_len() > 0 {
            Some(note)
        } else {
            None
        };
        let upc = Self::trimmed_or_empty(&row.3);
        if !valid_upc(upc.as_str()) {
            return Ok(Ghost(false));
        }
        let quantity_change = match row.4 {
            Some(q) => q,
            None => 0,
        };
        if quantity_change == 0 {
            return Ok(Ghost(false));
        }
        let created_at = match row.5 {
            Some(ts) => match ts_to_naive(ts) {
                Ok(dt) => dt,
                Err(e) => {
                    return Err(e);
                },
            },
            None => {
                return Ok(Ghost(false));
            },
        };
        let operator_mdoc = match row.7 {
            Some(op) => op,
            None => 0,
        };
        let customer_mdoc = match row.6 {
            Some(c) => if c > 0 { Some(c) } else { None },
            None => None,
        };
        let itx = InventoryTransaction {
            id: None,
            ref_order_id,
            reference,
            upc,
            quantity_change,
            created_at: Some(created_at),
            customer_mdoc,
            operator_mdoc,
        };
        let r = self.deps.inv_repo.create(&itx);
        Ok(Ghost(r.is_ok()))
    }

    /// Migrates inventory rows in order (see `inventory_from_row`); rows that
    /// break a rule, and rows whose insert fails, are skipped. A row that
    /// passes the first checks but has a posting date that names no moment
    /// stops the migration with that date's error; the rows before it stay migrated.
    pub fn migrate_inventory_transactions_from_rows(&mut self, raw_rows: Vec<RawInventoryRow>) -> (r: Result<(), AppError>)
        ensures
            r is Ok ==> (forall|k: int| 0 <= k < raw_rows@.len() ==> !inventory_row_aborts(#[trigger] raw_rows.deep_view()[k])),
            r is Ok ==> exists|stored: Seq<bool>|
                stored.len() == raw_rows@.len()
                && #[trigger] inventory_migrated(old(self).deps.inv_repo.transactions(), raw_rows.deep_view(), stored)
                    == final(self).deps.inv_repo.transactions()
                && final(self).deps.inv_repo.create_log() == old(self).deps.inv_repo.create_log() + inventory_attempts(raw_rows.deep_view(), stored),
            r matches Err(e) ==> exists|k: int|
                0 <= k < raw_rows@.len() && #[trigger] inventory_row_aborts(raw_rows.deep_view()[k])
                && (forall|j: int| 0 <= j < k ==> !inventory_row_aborts(#[trigger] raw_rows.deep_view()[j]))
                && (e matches AppError::Unexpected(m) && m@ == timestamp_error(raw_rows.deep_view()[k].5.unwrap()))
                && exists|stored: Seq<bool>|
                    stored.len() == k
                    && #[trigger] inventory_migrated(old(self).deps.inv_repo.transactions(), raw_rows.deep_view().take(k), stored)
                        == final(self).deps.inv_repo.transactions()
                    && final(self).deps.inv_repo.create_log() == old(self).deps.inv_repo.create_log() + inventory_attempts(raw_rows.deep_view().take(k), stored),
    {
        let ghost rows = raw_rows.deep_view();
        let ghost start = self.deps.inv_repo.transactions();
        let ghost log0 = self.deps.inv_repo.create_log();
        let ghost mut stored: Seq<bool> = Seq::empty();
        let n = raw_rows.len();
        let mut i: usize = 0;
        while i < n
            invariant
                n == raw_rows@.len(),
                rows == raw_rows.deep_view(),
                i <= n,
                stored.len() == i,
                start == old(self).deps.inv_repo.transactions(),
                log0 == old(self).deps.inv_repo.create_log(),
                forall|j: int| 0 <= j < i ==> !inventory_row_aborts(#[trigger] rows[j]),
                self.deps.inv_repo.transactions() == inventory_migrated(start, rows.take(i as int), stored),
                self.deps.inv_repo.create_log() == log0 + inventory_attempts(rows.take(i as int), stored),
            decreases n - i,
        {
            assert(rows[i as int] == raw_rows[i as int].deep_view());
            let out = self.migrate_inventory_row(&raw_rows[i]);
            match out {
                Ok(b) => {
                    proof {
                        assert(rows.take(i + 1).drop_last() =~= rows.take(i as int));
                        assert(rows.take(i + 1).last() == rows[i as int]);
                        let prev = stored;
                        stored = stored.push(b@);
                        assert(stored.drop_last() =~= prev);
                        if let Some(v) = inventory_from_row(rows[i as int]) {
                            lemma_concat_push(log0, inventory_attempts(rows.take(i as int), prev), (v, b@));
                        }
                    }
                },
                Err(e) => {
                    assert(inventory_row_aborts(rows[i as int]));
                    assert(rows[i as int].5 == raw_rows[i as int].5);
                    assert(stored.len() == i && inventory_migrated(start, rows.take(i as int), stored)
                        == self.deps.inv_repo.transactions()
                        && self.deps.inv_repo.create_log() == old(self).deps.inv_repo.create_log() + inventory_attempts(rows.take(i as int), stored));
                    return Err(e);
                },
            }
            i = i + 1;
        }
        assert(rows.take(n as int) =~= rows);
        Ok(())
    }
}

/// Appending to the end of a concatenation appends to its second part.
proof fn lemma_concat_push<T>(a: Seq<T>, b: Seq<T>, e: T)
    ensures
        (a + b).push(e) == a + b.push(e),
{
    assert((a + b).push(e) =~= a + b.push(e));
}

/// Migrating operators keeps MDOC numbers unique, as long as every check for
/// an existing MDOC succeeds (a check that fails lets its row through).
pub proof fn migrated_operator_mdocs_unique(
    ops: Seq<OperatorView>,
    rows: Seq<RawOperatorRowView>,
    looked_up: Seq<bool>,
    stored: Seq<bool>,
)
    requires
        operator_mdocs_unique(ops),
        looked_up.len() == rows.len(),
        stored.len() == rows.len(),
        forall|k: int| 0 <= k < looked_up.len() ==> #[trigger] looked_up[k],
    ensures
        operator_mdocs_unique(operators_migrated(ops, rows, looked_up, stored)),
    decreases rows.len(),
{
    if rows.len() > 0 {
        assert forall|k: int| 0 <= k < looked_up.drop_last().len() implies #[trigger] looked_up.drop_last()[k] by {
            assert(looked_up.drop_last()[k] == looked_up[k]);
        }
        migrated_operator_mdocs_unique(ops, rows.drop_last(), looked_up.drop_last(), stored.drop_last());
        let prev = operators_migrated(ops, rows.drop_last(), looked_up.drop_last(), stored.drop_last());
        assert(looked_up.last() == looked_up[looked_up.len() - 1]);
        if let Some(op) = operator_from_row(rows.last()) {
            if operator_with_mdoc(prev, op.mdoc) is None && stored.last() {
                lemma_operator_not_found(prev, op.mdoc);
                create_keeps_operator_mdocs_unique(prev, op);
            }
        }
    }
}

/// A product row that migrates becomes the product it describes: its UPC,
/// description and category trimmed, its price, its updated and added
/// moments, and a deleted moment exactly when the row has one, that moment.
/// A product whose deleted column is empty stays active.
pub proof fn migrated_product_is_its_row(row: RawProductRowView)
    requires
        product_from_row(row) is Some,
    ensures
        ({
            let p = product_from_row(row)->Some_0;
            &&& row.0 is Some && p.upc == trim_spec(row.0->Some_0) && is_upc(p.upc)
            &&& row.1 is Some && p.category == trim_spec(row.1->Some_0)
            &&& row.2 is Some && p.desc == trim_spec(row.2->Some_0)
            &&& row.3 == Some(p.price) && p.price > 0
            &&& row.4 is Some && p.updated is Some && p.updated == timestamp_value(row.4->Some_0)
            &&& row.5 is Some && p.added is Some && p.added == timestamp_value(row.5->Some_0)
            &&& (p.deleted is None <==> row.6 is None)
            &&& (row.6 matches Some(ts) ==> p.deleted is Some && p.deleted == timestamp_value(ts))
        }),
{
}

/// An operator row that migrates becomes the operator it describes: its
/// MDOC, its name trimmed, its start, and a stop exactly when the row has
/// one, that moment. An operator whose stop column is empty stays active.
pub proof fn migrated_operator_is_its_row(row: RawOperatorRowView)
    requires
        operator_from_row(row) is Some,
    ensures
        ({
            let op = operator_from_row(row)->Some_0;
            &&& row.0 == Some(op.mdoc) && op.mdoc > 0
            &&& row.1 is Some && op.name == trim_spec(row.1->Some_0)
            &&& row.2 is Some && op.start is Some && op.start == timestamp_value(row.2->Some_0)
            &&& (op.stop is None <==> row.3 is None)
            &&& (row.3 matches Some(ts) ==> op.stop is Some && op.stop == timestamp_value(ts))
        }),
{
}

/// A customer row that migrates becomes the customer it describes: its
/// MDOC, its name trimmed, and its added moment, which is also its updated one.
pub proof fn migrated_customer_is_its_row(row: RawCustomerRowView)
    requires
        customer_from_row(row) is Some,
    ensures
        ({
            let c = customer_from_row(row)->Some_0;
            &&& row.0 == Some(c.mdoc) && c.mdoc > 0
            &&& row.1 is Some && c.name == trim_spec(row.1->Some_0)
            &&& row.2 is Some && timestamp_value(row.2->Some_0) == Some(c.added)
            &&& c.updated == c.added
        }),
{
}

/// An order row that migrates keeps its order id, customer, operator and
/// entry date; a note that is blank or missing becomes none, any other is trimmed.
pub proof fn migrated_order_is_its_row(row: RawCustomerOrderRowView)
    requires
        customer_order_from_row(row) is Some,
    ensures
        ({
            let o = customer_order_from_row(row)->Some_0;
            &&& row.0 == Some(o.order_id) && o.order_id > 0
            &&& row.1 == Some(o.customer_mdoc) && o.customer_mdoc > 0
            &&& row.2 == Some(o.operator_mdoc) && o.operator_mdoc > 0
            &&& row.3 is Some && o.date is Some && o.date == timestamp_value(row.3->Some_0)
            &&& (o.note is None <==> (row.4 is None || is_blank(row.4->Some_0)))
            &&& (o.note matches Some(n) ==> n == trim_spec(row.4->Some_0))
        }),
{
}

/// An order line row that migrates keeps its order id, quantity (not
/// negative) and price (positive), with its UPC trimmed; it gets a new id.
pub proof fn migrated_order_line_is_its_row(row: RawCustomerOrderDetailRowView)
    requires
        order_detail_from_row(row) is Some,
    ensures
        ({
            let d = order_detail_from_row(row)->Some_0;
            &&& row.1 == Some(d.order_id) && d.order_id > 0
            &&& row.2 is Some && d.upc == trim_spec(row.2->Some_0) && is_upc(d.upc)
            &&& row.3 == Some(d.quantity) && d.quantity >= 0
            &&& row.4 == Some(d.price) && d.price > 0
            &&& d.detail_id == 0
        }),
{
}

/// An inventory row that migrates keeps its trimmed UPC, its quantity change
/// (not zero) and its posting moment; the order and customer are kept only
/// when positive, and a missing operator is operator 0.
pub proof fn migrated_inventory_is_its_row(row: RawInventoryRowView)
    requires
        inventory_from_row(row) is Some,
    ensures
        ({
            let t = inventory_from_row(row)->Some_0;
            &&& t.upc == trim_spec(text_or_empty(row.3)) && is_upc(t.upc)
            &&& row.4 == Some(t.quantity_change) && t.quantity_change != 0
            &&& row.5 is Some && t.created_at is Some && t.created_at == timestamp_value(row.5->Some_0)
            &&& (t.ref_order_id matches Some(o) ==> row.0 == Some(o) && o > 0)
            &&& (row.0 matches Some(o) ==> (o > 0 ==> t.ref_order_id == Some(o)))
            &&& (t.customer_mdoc matches Some(c) ==> row.6 == Some(c) && c > 0)
            &&& (row.6 matches Some(c) ==> (c > 0 ==> t.customer_mdoc == Some(c)))
            &&& (row.7 matches Some(op) ==> t.operator_mdoc == op)
            &&& (row.7 is None ==> t.operator_mdoc == 0)
            &&& t.id is None
        }),
{
}

/// A statement row that migrates keeps its id and import moment, with its
/// file name trimmed; its activity runs from midnight of the first day of
/// its " - " range to midnight of the second.
pub proof fn migrated_club_import_is_its_row(row: RawClubImportRowView)
    requires
        club_import_from_row(row) is Some,
    ensures
        ({
            let imp = club_import_from_row(row)->Some_0;
            &&& row.0 == Some(imp.id) && imp.id > 0
            &&& row.3 is Some && timestamp_value(row.3->Some_0) == Some(imp.date)
            &&& row.2 is Some && imp.source_file == trim_spec(row.2->Some_0)
            &&& row.1 is Some
            &&& (split_in_two(row.1->Some_0, " - "@) matches Some((a, b)) && activity_day(a) == Some(
                imp.activity_from.date,
            ) && activity_day(b) == Some(imp.activity_to.date))
            &&& imp.activity_from.time == (NaiveTime { hour: 0, minute: 0, second: 0, nano: 0 })
            &&& imp.activity_to.time == (NaiveTime { hour: 0, minute: 0, second: 0, nano: 0 })
        }),
{
}

/// A club statement detail row that migrates keeps its id, its statement's
/// id and its posting moment; a missing amount is zero; it is a deposit
/// exactly when its trimmed kind is the deposit kind, and a deposit always
/// names an MDOC number.
pub proof fn migrated_club_transaction_is_its_row(row: RawClubTransactionRowView)
    requires
        club_transaction_from_row(row) is Some,
    ensures
        ({
            let t = club_transaction_from_row(row)->Some_0;
            &&& row.0 == Some(t.id) && t.id > 0
            &&& row.1 == Some(t.import_id) && t.import_id > 0
            &&& row.5 is Some && timestamp_value(row.5->Some_0) == Some(t.date)
            &&& (row.4 matches Some(a) ==> t.amount == a)
            &&& (row.4 is None ==> t.amount == 0)
            &&& row.3 is Some && ((t.tx_type == TransactionType::Deposit) <==> trim_spec(row.3->Some_0) == deposit_kind())
            &&& (t.tx_type == TransactionType::Deposit ==> t.mdoc is Some)
        }),
{
}

} // verus!
