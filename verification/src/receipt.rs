//! The text of a printed receipt. Laying it out on the page and sending it
//! to the printer happen outside; here are the lines it shows.
use vstd::prelude::*;
use vstd::utf8::{decode_utf8, encode_utf8, is_char_boundary};
use vstd::string::StringSliceAdditionalSpecFns;
use crate::models::{CustomerTransaction, PrintableLineItem};
use crate::text::{int_text, int_to_string, nat_text, padded, push_char, push_nat_text, push_padded};

verus! {

/// An amount of cents as dollars with two decimals, as `{:.2}` shows `cents as f64 / 100.0`.
pub open spec fn cents_text(c: int) -> Seq<char> {
    let a: nat = if c < 0 { (-c) as nat } else { c as nat };
    (if c < 0 { seq!['-'] } else { Seq::empty() }) + nat_text(a / 100) + seq!['.'] + padded(a % 100, 2)
}

/// Shows an amount of cents as dollars with two decimals.
pub fn format_cents(c: i32) -> (s: String)
    ensures
        s@ == cents_text(c as int),
{
    let a: u64 = if c < 0 { (0 - (c as i64)) as u64 } else { c as u64 };
    let mut s = String::new();
    if c < 0 {
        push_char(&mut s, '-');
    }
    push_nat_text(&mut s, a / 100);
    push_char(&mut s, '.');
    push_padded(&mut s, a % 100, 2);
    assert(s@ =~= cents_text(c as int));
    s
}

/// A text cut for the receipt: longer than `max` bytes, it is cut to its
/// first `keep` bytes and gets an ellipsis.
pub open spec fn shortened(s: Seq<char>, max: nat, keep: int) -> Seq<char> {
    if encode_utf8(s).len() > max {
        decode_utf8(encode_utf8(s).take(keep)) + "…"@
    } else {
        s
    }
}

/// Whether cutting `s` to `keep` bytes, when it is longer than `max`, cuts
/// between characters (cutting elsewhere panics).
pub open spec fn cut_ok(s: Seq<char>, max: nat, keep: int) -> bool {
    encode_utf8(s).len() > max ==> is_char_boundary(encode_utf8(s), keep)
}

/// Cuts a text for the receipt (see `shortened`).
pub fn shorten(s: &str, max: usize, keep: usize) -> (r: String)
    requires
        keep <= max,
        cut_ok(s@, max as nat, keep as int),
        encode_utf8(s@).len() <= usize::MAX,
    ensures
        r@ == shortened(s@, max as nat, keep as int),
{
    if s.len() > max {
        proof {
            vstd::utf8::encode_utf8_valid_utf8(s@);
        }
        let (head, _) = s.split_at(keep);
        proof {
            vstd::utf8::encode_utf8_decode_utf8(head@);
            assert(head.spec_bytes() == encode_utf8(head@));
            assert(s.spec_bytes() == encode_utf8(s@));
            assert(encode_utf8(s@).subrange(0, keep as int) =~= encode_utf8(s@).take(keep as int));
            assert(decode_utf8(encode_utf8(s@).take(keep as int)) == head@);
        }
        String::from_str(head).concat("…")
    } else {
        String::from_str(s)
    }
}

/// The sum of quantity times price over the lines, in cents.
pub open spec fn items_total(items: Seq<PrintableLineItem>) -> int
    decreases items.len(),
{
    if items.len() == 0 {
        0
    } else {
        items_total(items.drop_last()) + items.last().quantity * items.last().price
    }
}

/// Whether adding the lines up one by one stays within `i32`, as the sum does
/// without overflow.
pub open spec fn total_fits(items: Seq<PrintableLineItem>) -> bool {
    &&& forall|k: int| 0 <= k <= items.len() ==> i32::MIN <= #[trigger] items_total(items.take(k)) <= i32::MAX
    &&& forall|k: int| 0 <= k < items.len() ==> i32::MIN <= (#[trigger] items[k]).quantity * items[k].price <= i32::MAX
}

/// The total of the lines, in cents.
pub fn receipt_total(items: &Vec<PrintableLineItem>) -> (t: i32)
    requires
        total_fits(items@),
    ensures
        t == items_total(items@),
{
    let n = items.len();
    let mut total: i32 = 0;
    let mut i: usize = 0;
    assert(items@.take(0) =~= Seq::<PrintableLineItem>::empty());
    while i < n
        invariant
            n == items@.len(),
            i <= n,
            total_fits(items@),
            total == items_total(items@.take(i as int)),
        decreases n - i,
    {
        let q = items[i].quantity;
        let p = items[i].price;
        assert(i32::MIN <= items@[i as int].quantity * items@[i as int].price <= i32::MAX);
        let line = q * p;
        assert(items@.take(i + 1).drop_last() =~= items@.take(i as int));
        assert(i32::MIN <= items_total(items@.take(i + 1)) <= i32::MAX);
        total = total + line;
        i = i + 1;
    }
    assert(items@.take(n as int) =~= items@);
    total
}

/// One line item as the receipt shows it.
pub struct ReceiptRow {
    pub desc: String,
    pub quantity: String,
    pub price: String,
}

/// The text of a receipt.
pub struct ReceiptText {
    pub order_line: String,
    pub operator_line: String,
    pub customer_line: String,
    pub rows: Vec<ReceiptRow>,
    pub total_line: String,
}

/// Whether every description can be cut for the receipt.
pub open spec fn descriptions_cut_ok(items: Seq<PrintableLineItem>) -> bool {
    forall|k: int| 0 <= k < items.len() ==> cut_ok((#[trigger] items[k]).desc@, 30, 29)
}

/// The lines of a receipt: the order id, the operator with their MDOC, the
/// customer (name cut at 22 bytes) with their MDOC, one row per item
/// (description cut at 30 bytes, quantity, price) and the total.
pub fn receipt_text(
    tx: &CustomerTransaction,
    items: &Vec<PrintableLineItem>,
    operator_name: &str,
    customer_name: &str,
) -> (r: ReceiptText)
    requires
        total_fits(items@),
        descriptions_cut_ok(items@),
        cut_ok(customer_name@, 22, 21),
        encode_utf8(customer_name@).len() <= usize::MAX,
        forall|k: int| 0 <= k < items@.len() ==> encode_utf8((#[trigger] items@[k]).desc@).len() <= usize::MAX,
    ensures
        r.order_line@ == "Order ID: "@ + int_text(tx.order_id as int),
        r.operator_line@ == "Operator: "@ + operator_name@ + " ("@ + int_text(tx.operator_mdoc as int) + ")"@,
        r.customer_line@ == " "@ + shortened(customer_name@, 22, 21) + " ("@ + int_text(tx.customer_mdoc as int) + ")"@,
        r.rows@.len() == items@.len(),
        forall|k: int| 0 <= k < items@.len() ==> {
            &&& (#[trigger] r.rows@[k]).desc@ == shortened(items@[k].desc@, 30, 29)
            &&& r.rows@[k].quantity@ == int_text(items@[k].quantity as int)
            &&& r.rows@[k].price@ == cents_text(items@[k].price as int)
        },
        r.total_line@ == "Total: "@ + cents_text(items_total(items@)),
{
    let order_line = String::from_str("Order ID: ").concat(int_to_string(tx.order_id).as_str());
    let operator_line = String::from_str("Operator: ").concat(operator_name).concat(" (").concat(
        int_to_string(tx.operator_mdoc).as_str(),
    ).concat(")");
    let display_name = shorten(customer_name, 22, 21);
    let customer_line = String::from_str(" ").concat(display_name.as_str()).concat(" (").concat(
        int_to_string(tx.customer_mdoc).as_str(),
    ).concat(")");
    let mut rows: Vec<ReceiptRow> = Vec::new();
    let n = items.len();
    let mut i: usize = 0;
    while i < n
        invariant
            n == items@.len(),
            i <= n,
            descriptions_cut_ok(items@),
            forall|k: int| 0 <= k < items@.len() ==> encode_utf8((#[trigger] items@[k]).desc@).len() <= usize::MAX,
            rows@.len() == i,
            forall|k: int| 0 <= k < i ==> {
                &&& (#[trigger] rows@[k]).desc@ == shortened(items@[k].desc@, 30, 29)
                &&& rows@[k].quantity@ == int_text(items@[k].quantity as int)
                &&& rows@[k].price@ == cents_text(items@[k].price as int)
            },
        decreases n - i,
    {
        let item = &items[i];
        assert(cut_ok(items@[i as int].desc@, 30, 29));
        assert(encode_utf8(items@[i as int].desc@).len() <= usize::MAX);
        let row = ReceiptRow {
            desc: shorten(item.desc.as_str(), 30, 29),
            quantity: int_to_string(item.quantity),
            price: format_cents(item.price),
        };
        rows.push(row);
        i = i + 1;
    }
    let total = receipt_total(items);
    let total_line = String::from_str("Total: ").concat(format_cents(total).as_str());
    ReceiptText { order_line, operator_line, customer_line, rows, total_line }
}

/// The balance line of the business copy.
pub fn balance_line(balance: i32) -> (s: String)
    ensures
        s@ == "Balance: "@ + cents_text(balance as int),
{
    String::from_str("Balance: ").concat(format_cents(balance).as_str())
}

} // verus!
