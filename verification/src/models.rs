//! The records the canteen keeps, and their abstract values.
use vstd::prelude::*;
use crate::datetime::NaiveDateTime;

verus! {

/// A member of staff who rings up sales, known by their MDOC number.
#[derive(Debug, Clone, PartialEq)]
pub struct Operator {
    pub mdoc: i32,
    pub name: String,
    pub start: Option<NaiveDateTime>,
    pub stop: Option<NaiveDateTime>,
}

/// An item for sale; `price` is in cents.
#[derive(Debug, Clone, PartialEq)]
pub struct Product {
    pub upc: String,
    pub desc: String,
    pub category: String,
    pub price: i32,
    pub updated: Option<NaiveDateTime>,
    pub added: Option<NaiveDateTime>,
    pub deleted: Option<NaiveDateTime>,
}

/// A product category; a deleted category keeps its row with `deleted` set.
#[derive(Debug, Clone, PartialEq)]
pub struct Category {
    pub id: i32,
    pub name: String,
    pub deleted: Option<NaiveDateTime>,
}

/// A resident with a canteen account.
#[derive(Debug, Clone, PartialEq)]
pub struct Customer {
    pub mdoc: i32,
    pub name: String,
    pub added: NaiveDateTime,
    pub updated: NaiveDateTime,
}

/// One imported club account statement.
#[derive(Debug, Clone, PartialEq)]
pub struct ClubImport {
    pub id: i32,
    pub date: NaiveDateTime,
    pub activity_from: NaiveDateTime,
    pub activity_to: NaiveDateTime,
    pub source_file: String,
}

/// Money moved into or out of the club account; `amount` is in cents.
#[derive(Debug, Clone, PartialEq)]
pub struct ClubTransaction {
    pub id: i32,
    pub import_id: i32,
    pub entity_name: String,
    pub mdoc: Option<i32>,
    pub tx_type: TransactionType,
    pub amount: i32,
    pub date: NaiveDateTime,
}

/// The direction of a club transaction.
#[derive(Debug, Clone, Copy, PartialEq, Eq, Structural)]
pub enum TransactionType {
    Deposit,
    Withdrawal,
}

/// A sale to a customer (an order).
#[derive(Debug, Clone, PartialEq)]
pub struct CustomerTransaction {
    pub order_id: i32,
    pub customer_mdoc: i32,
    pub operator_mdoc: i32,
    pub date: Option<NaiveDateTime>,
    pub note: Option<String>,
}

/// One line of an order; `price` is in cents, `detail_id` 0 asks for a new id.
#[derive(Debug, Clone, PartialEq)]
pub struct CustomerTxDetail {
    pub detail_id: i32,
    pub order_id: i32,
    pub upc: String,
    pub quantity: i32,
    pub price: i32,
}

/// A change of stock of one product.
#[derive(Debug, Clone, PartialEq)]
pub struct InventoryTransaction {
    pub id: Option<i32>,
    pub upc: String,
    pub quantity_change: i32,
    pub operator_mdoc: i32,
    pub customer_mdoc: Option<i32>,
    pub ref_order_id: Option<i32>,
    pub reference: Option<String>,
    pub created_at: Option<NaiveDateTime>,
}

/// A recorded change of a product's price, in cents.
#[derive(Debug, Clone, PartialEq)]
pub struct PriceAdjustment {
    pub id: i32,
    pub operator_mdoc: i32,
    pub upc: String,
    pub old: i32,
    pub new: i32,
    pub created_at: Option<NaiveDateTime>,
}

/// The text read from a statement PDF.
#[derive(Debug, Clone, PartialEq)]
pub struct ParsedPdf {
    pub filename: String,
    pub date: NaiveDateTime,
    pub text: String,
}

/// The fields of a product that an edit may change.
#[derive(Debug, Clone, PartialEq)]
pub struct UpdateProductDto {
    pub upc: String,
    pub desc: String,
    pub category: String,
}

/// A club transaction with the account total after it.
#[derive(Debug, Clone, PartialEq)]
pub struct ClubTransactionWithTotal {
    pub id: i32,
    pub import_id: i32,
    pub entity_name: String,
    pub mdoc: Option<i32>,
    pub tx_type: String,
    pub amount: i32,
    pub date: NaiveDateTime,
    pub running_total: i32,
}

/// A row of the club import report.
#[derive(Debug, Clone, PartialEq)]
pub struct ClubTransactionRow {
    pub tx: ClubTransactionWithTotal,
    pub running_total: i32,
}

/// Sums of the deposits and of the withdrawals of one statement.
#[derive(Debug, Clone, Copy, PartialEq, Eq, Structural)]
pub struct PeriodTotals {
    pub period_pos_sum: i32,
    pub period_neg_sum: i32,
}

/// A line of the inventory report; summary lines have no product.
#[derive(Debug, Clone, PartialEq)]
pub struct ProductInventoryReport {
    pub category: String,
    pub upc: Option<String>,
    pub name: Option<String>,
    pub price: Option<i32>,
    pub quantity: i32,
    pub total: i32,
    pub is_summary: bool,
}

/// Totals of the inventory report.
#[derive(Debug, Clone, Copy, PartialEq, Eq, Structural)]
pub struct ProductInventoryTotals {
    pub total_quantity: i32,
    pub total_value: i32,
}

/// A line of the sales-by-category report.
#[derive(Debug, Clone, PartialEq)]
pub struct ProductSalesByCategory {
    pub category: String,
    pub upc: String,
    pub name: String,
    pub quantity_sold: i32,
    pub price: i32,
    pub total_sales: i32,
    pub is_summary: bool,
}

/// Totals of the sales report.
#[derive(Debug, Clone, Copy, PartialEq, Eq, Structural)]
pub struct SalesTotals {
    pub total_quantity: i32,
    pub total_value: i32,
}

/// An order with its lines, for the sales detail report.
#[derive(Debug, Clone, PartialEq)]
pub struct SalesReportDetails {
    pub tx: CustomerTransaction,
    pub customer_name: String,
    pub item_count: i32,
    pub order_total: i32,
    pub details: Vec<SalesReportDetailRow>,
}

/// A line of an order in the sales detail report.
#[derive(Debug, Clone, PartialEq)]
pub struct SalesReportDetailRow {
    pub detail_id: i32,
    pub order_id: i32,
    pub upc: String,
    pub quantity: i32,
    pub price: i32,
    pub product_name: String,
}

/// What the point-of-sale screen loads when it opens.
#[derive(Debug, Clone, PartialEq)]
pub struct PosInitData {
    pub products: Vec<Product>,
    pub customer_accounts: Vec<(Customer, i32)>,
}

/// A line of a printed receipt; `price` is in cents.
#[derive(Debug, Clone, PartialEq)]
pub struct PrintableLineItem {
    pub desc: String,
    pub quantity: i32,
    pub price: i32,
}

/// A sale as it is printed, with the customer's balance after it.
#[derive(Debug, Clone, PartialEq)]
pub struct PrintableSaleDto {
    pub transaction: CustomerTransaction,
    pub items: Vec<PrintableLineItem>,
    pub balance: i32,
}

/// The kinds of report the printer use cases print.
#[derive(Debug, Clone, Copy, PartialEq, Eq, Structural)]
pub enum ReportType {
    Receipt,
}


/// The abstract value of an operator.
pub struct OperatorView {
    pub mdoc: i32,
    pub name: Seq<char>,
    pub start: Option<NaiveDateTime>,
    pub stop: Option<NaiveDateTime>,
}

impl DeepView for Operator {
    type V = OperatorView;

    open spec fn deep_view(&self) -> OperatorView {
        OperatorView { mdoc: self.mdoc, name: self.name@, start: self.start, stop: self.stop }
    }
}

/// The abstract value of a product.
pub struct ProductView {
    pub upc: Seq<char>,
    pub desc: Seq<char>,
    pub category: Seq<char>,
    pub price: i32,
    pub updated: Option<NaiveDateTime>,
    pub added: Option<NaiveDateTime>,
    pub deleted: Option<NaiveDateTime>,
}

impl DeepView for Product {
    type V = ProductView;

    open spec fn deep_view(&self) -> ProductView {
        ProductView {
            upc: self.upc@,
            desc: self.desc@,
            category: self.category@,
            price: self.price,
            updated: self.updated,
            added: self.added,
            deleted: self.deleted,
        }
    }
}

/// The abstract value of a category.
pub struct CategoryView {
    pub id: i32,
    pub name: Seq<char>,
    pub deleted: Option<NaiveDateTime>,
}

impl DeepView for Category {
    type V = CategoryView;

    open spec fn deep_view(&self) -> CategoryView {
        CategoryView { id: self.id, name: self.name@, deleted: self.deleted }
    }
}

/// The abstract value of a customer.
pub struct CustomerView {
    pub mdoc: i32,
    pub name: Seq<char>,
    pub added: NaiveDateTime,
    pub updated: NaiveDateTime,
}

impl DeepView for Customer {
    type V = CustomerView;

    open spec fn deep_view(&self) -> CustomerView {
        CustomerView { mdoc: self.mdoc, name: self.name@, added: self.added, updated: self.updated }
    }
}

/// The abstract value of a club statement import.
pub struct ClubImportView {
    pub id: i32,
    pub date: NaiveDateTime,
    pub activity_from: NaiveDateTime,
    pub activity_to: NaiveDateTime,
    pub source_file: Seq<char>,
}

impl DeepView for ClubImport {
    type V = ClubImportView;

    open spec fn deep_view(&self) -> ClubImportView {
        ClubImportView {
            id: self.id,
            date: self.date,
            activity_from: self.activity_from,
            activity_to: self.activity_to,
            source_file: self.source_file@,
        }
    }
}

/// The abstract value of a club transaction.
pub struct ClubTransactionView {
    pub id: i32,
    pub import_id: i32,
    pub entity_name: Seq<char>,
    pub mdoc: Option<i32>,
    pub tx_type: TransactionType,
    pub amount: i32,
    pub date: NaiveDateTime,
}

impl DeepView for ClubTransaction {
    type V = ClubTransactionView;

    open spec fn deep_view(&self) -> ClubTransactionView {
        ClubTransactionView {
            id: self.id,
            import_id: self.import_id,
            entity_name: self.entity_name@,
            mdoc: self.mdoc,
            tx_type: self.tx_type,
            amount: self.amount,
            date: self.date,
        }
    }
}

/// The abstract value of an order.
pub struct CustomerTransactionView {
    pub order_id: i32,
    pub customer_mdoc: i32,
    pub operator_mdoc: i32,
    pub date: Option<NaiveDateTime>,
    pub note: Option<Seq<char>>,
}

impl DeepView for CustomerTransaction {
    type V = CustomerTransactionView;

    open spec fn deep_view(&self) -> CustomerTransactionView {
        CustomerTransactionView {
            order_id: self.order_id,
            customer_mdoc: self.customer_mdoc,
            operator_mdoc: self.operator_mdoc,
            date: self.date,
            note: self.note.deep_view(),
        }
    }
}

/// The abstract value of an order line.
pub struct CustomerTxDetailView {
    pub detail_id: i32,
    pub order_id: i32,
    pub upc: Seq<char>,
    pub quantity: i32,
    pub price: i32,
}

impl DeepView for CustomerTxDetail {
    type V = CustomerTxDetailView;

    open spec fn deep_view(&self) -> CustomerTxDetailView {
        CustomerTxDetailView {
            detail_id: self.detail_id,
            order_id: self.order_id,
            upc: self.upc@,
            quantity: self.quantity,
            price: self.price,
        }
    }
}

/// The abstract value of an inventory transaction.
pub struct InventoryTransactionView {
    pub id: Option<i32>,
    pub upc: Seq<char>,
    pub quantity_change: i32,
    pub operator_mdoc: i32,
    pub customer_mdoc: Option<i32>,
    pub ref_order_id: Option<i32>,
    pub reference: Option<Seq<char>>,
    pub created_at: Option<NaiveDateTime>,
}

impl DeepView for InventoryTransaction {
    type V = InventoryTransactionView;

    open spec fn deep_view(&self) -> InventoryTransactionView {
        InventoryTransactionView {
            id: self.id,
            upc: self.upc@,
            quantity_change: self.quantity_change,
            operator_mdoc: self.operator_mdoc,
            customer_mdoc: self.customer_mdoc,
            ref_order_id: self.ref_order_id,
            reference: self.reference.deep_view(),
            created_at: self.created_at,
        }
    }
}

/// The abstract value of a price adjustment.
pub struct PriceAdjustmentView {
    pub id: i32,
    pub operator_mdoc: i32,
    pub upc: Seq<char>,
    pub old: i32,
    pub new: i32,
    pub created_at: Option<NaiveDateTime>,
}

impl DeepView for PriceAdjustment {
    type V = PriceAdjustmentView;

    open spec fn deep_view(&self) -> PriceAdjustmentView {
        PriceAdjustmentView {
            id: self.id,
            operator_mdoc: self.operator_mdoc,
            upc: self.upc@,
            old: self.old,
            new: self.new,
            created_at: self.created_at,
        }
    }
}

/// The text a transaction type is stored as.
pub open spec fn transaction_type_text(t: TransactionType) -> Seq<char> {
    match t {
        TransactionType::Deposit => "Deposit"@,
        TransactionType::Withdrawal => "Withdrawal"@,
    }
}

impl TransactionType {
    /// Reads a stored transaction type: "Deposit" or "Withdrawal", any other
    /// text is an error naming it.
    pub fn from_text(s: &str) -> (r: Result<TransactionType, String>)
        ensures
            match r {
                Ok(t) => s@ == transaction_type_text(t),
                Err(m) => s@ != "Deposit"@ && s@ != "Withdrawal"@
                    && m@ == "Invalid TransactionType: "@ + s@,
            },
    {
        let deposit = String::from_str("Deposit");
        let withdrawal = String::from_str("Withdrawal");
        let owned = String::from_str(s);
        if owned == deposit {
            Ok(TransactionType::Deposit)
        } else if owned == withdrawal {
            Ok(TransactionType::Withdrawal)
        } else {
            Err(String::from_str("Invalid TransactionType: ").concat(s))
        }
    }
}

} // verus!
