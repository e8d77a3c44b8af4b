//! The club account statement: the text read from its PDF is matched against
//! the statement's layout. Reading the PDF and turning dollar amounts into
//! cents happen outside; here are the dates, the header, the transaction
//! lines, the entity of a line, and the customer a line names.
use vstd::prelude::*;
use crate::datetime::{chrono_parse_date, now_utc, parse_date, NaiveDate, NaiveDateTime};
use crate::error::AppError;
use crate::legacy::midnight;
use crate::models::{ClubImport, ClubImportView, ClubTransaction, ClubTransactionView, Customer, CustomerView, TransactionType};
use crate::pattern::{
    all_captures, capture_group, check_pattern, first_captures, group, regex_all_captures,
    regex_compiled, regex_first_captures, regex_replace_first, replace_first,
};
use crate::repos::{customer_with_mdoc, customers_updated, ClubImportRepoTrait, ClubTransactionRepoTrait, CustomerRepoTrait};
use crate::text::{parse_i32, parse_i32_error, parse_i32_spec, parse_int_error_text, trim, trim_spec};

verus! {

/// The pattern of a date on the statement.
pub open spec fn date_pattern() -> Seq<char> {
    "(\\d{1,2}/\\d{1,2}/\\d{4})"@
}

/// The pattern of the statement's activity range.
pub open spec fn range_pattern() -> Seq<char> {
    "(\\d{1,2}/\\d{1,2}/\\d{4})\\s*-\\s*(\\d{1,2}/\\d{1,2}/\\d{4})"@
}

/// The pattern of a transaction line, one line of the text: date, kind,
/// description and two amounts.
pub open spec fn line_pattern() -> Seq<char> {
    "(?m)^(\\d{1,2}/\\d{1,2}/\\d{4})\\s+(Recd Client Donation/Dues|W/D General)\\s+(.+?)\\s+(\\(?\\$[\\d,]+\\.\\d\\d\\)?)\\s+(\\(?\\$[\\d,]+\\.\\d\\d\\)?)$"@
}

/// The pattern of an MDOC number in parentheses.
pub open spec fn mdoc_pattern() -> Seq<char> {
    "\\((\\d+)\\)"@
}

/// The day a statement date names, parsed by chrono as `%-m/%-d/%Y`.
pub open spec fn statement_day(s: Seq<char>) -> Result<NaiveDate, Seq<char>> {
    chrono_parse_date(s, "%-m/%-d/%Y"@)
}

/// Midnight of the day a statement date names; a date that does not parse
/// is an error naming the label, the text and chrono's message.
pub fn parse_date_midnight(s: &str, label: &str) -> (r: Result<NaiveDateTime, AppError>)
    ensures
        match statement_day(s@) {
            Ok(d) => r == Ok::<NaiveDateTime, AppError>(midnight(d)),
            Err(m) => r matches Err(AppError::Unexpected(t)) && t@ == invalid_date_text(label@, s@, m),
        },
{
    match parse_date(s, "%-m/%-d/%Y") {
        Ok(d) => match d.and_hms_opt(0, 0, 0) {
            Some(dt) => Ok(dt),
            None => Err(AppError::Unexpected(
                String::from_str("Invalid ").concat(label).concat(" date time '").concat(s).concat("'"),
            )),
        },
        Err(e) => Err(AppError::Unexpected(
            String::from_str("Invalid ").concat(label).concat(" '").concat(s).concat("': ").concat(e.as_str()),
        )),
    }
}

/// The error text of a statement date that does not parse.
pub open spec fn invalid_date_text(label: Seq<char>, s: Seq<char>, why: Seq<char>) -> Seq<char> {
    "Invalid "@ + label + " '"@ + s + "': "@ + why
}

/// The import record a statement's text describes, or the error text: the
/// first date on it is the import date and the first range is the activity
/// range, each at midnight; the id is 0 until the import is stored. A pattern
/// that does not compile, a missing date or range, or a date that does not
/// parse, is an error.
pub open spec fn statement_import_result(raw: Seq<char>, filename: Seq<char>) -> Result<ClubImportView, Seq<char>> {
    if regex_compiled(date_pattern()) is Err {
        Err("Internal parser regex error"@)
    } else {
        match capture_group(regex_first_captures(date_pattern(), raw), 1) {
            None => Err("Missing import date"@),
            Some(ds) => match statement_day(ds) {
                Err(why) => Err(invalid_date_text("import date"@, ds, why)),
                Ok(date) => if regex_compiled(range_pattern()) is Err {
                    Err("Internal parser regex error"@)
                } else {
                    let caps = regex_first_captures(range_pattern(), raw);
                    match (capture_group(caps, 1), capture_group(caps, 2)) {
                        (Some(f), Some(t)) => match statement_day(f) {
                            Err(why) => Err(invalid_date_text("from date"@, f, why)),
                            Ok(from) => match statement_day(t) {
                                Err(why) => Err(invalid_date_text("to date"@, t, why)),
                                Ok(to) => Ok(
                                    ClubImportView {
                                        id: 0,
                                        date: midnight(date),
                                        activity_from: midnight(from),
                                        activity_to: midnight(to),
                                        source_file: filename,
                                    },
                                ),
                            },
                        },
                        _ => Err("Missing date range"@),
                    }
                },
            },
        }
    }
}

/// Reads the import record a statement's text describes (see `statement_import_result`).
pub fn statement_import(filename: String, raw: &str) -> (r: Result<ClubImport, AppError>)
    ensures
        match statement_import_result(raw@, filename@) {
            Ok(v) => r matches Ok(imp) && imp.deep_view() == v,
            Err(m) => r matches Err(AppError::Unexpected(t)) && t@ == m,
        },
{
    let internal = String::from_str("Internal parser regex error");
    let date_re = "(\\d{1,2}/\\d{1,2}/\\d{4})";
    match check_pattern(date_re) {
        Ok(()) => {},
        Err(_) => {
            return Err(AppError::Unexpected(internal));
        },
    }
    let date_caps = first_captures(date_re, raw);
    let import_date_str = match group(&date_caps, 1) {
        Some(s) => s,
        None => {
            return Err(AppError::Unexpected(String::from_str("Missing import date")));
        },
    };
    let import_date = match parse_date_midnight(import_date_str.as_str(), "import date") {
        Ok(d) => d,
        Err(e) => {
            return Err(e);
        },
    };
    let range_re = "(\\d{1,2}/\\d{1,2}/\\d{4})\\s*-\\s*(\\d{1,2}/\\d{1,2}/\\d{4})";
    match check_pattern(range_re) {
        Ok(()) => {},
        Err(_) => {
            return Err(AppError::Unexpected(internal));
        },
    }
    let caps = first_captures(range_re, raw);
    if caps.is_none() {
        return Err(AppError::Unexpected(String::from_str("Missing date range")));
    }
    let from_str = match group(&caps, 1) {
        Some(s) => s,
        None => {
            return Err(AppError::Unexpected(String::from_str("Missing date range")));
        },
    };
    let to_str = match group(&caps, 2) {
        Some(s) => s,
        None => {
            return Err(AppError::Unexpected(String::from_str("Missing date range")));
        },
    };
    let from = match parse_date_midnight(from_str.as_str(), "from date") {
        Ok(d) => d,
        Err(e) => {
            return Err(e);
        },
    };
    let to = match parse_date_midnight(to_str.as_str(), "to date") {
        Ok(d) => d,
        Err(e) => {
            return Err(e);
        },
    };
    Ok(ClubImport { id: 0, date: import_date, activity_from: from, activity_to: to, source_file: filename })
}

/// The transaction lines of a statement's text: the groups of every match of
/// the line pattern. The MDOC pattern is checked here too, as the lines'
/// entities need it.
pub fn statement_lines(raw: &str) -> (r: Result<Vec<Vec<Option<String>>>, AppError>)
    ensures
        r is Ok <==> regex_compiled(line_pattern()) is Ok && regex_compiled(mdoc_pattern()) is Ok,
        r matches Ok(lines) ==> lines.deep_view() == regex_all_captures(line_pattern(), raw@),
        r matches Err(e) ==> (e matches AppError::Unexpected(m) && m@ == "Internal parser regex error"@),
{
    let line_re = "(?m)^(\\d{1,2}/\\d{1,2}/\\d{4})\\s+(Recd Client Donation/Dues|W/D General)\\s+(.+?)\\s+(\\(?\\$[\\d,]+\\.\\d\\d\\)?)\\s+(\\(?\\$[\\d,]+\\.\\d\\d\\)?)$";
    match check_pattern(line_re) {
        Ok(()) => {},
        Err(_) => {
            return Err(AppError::Unexpected(String::from_str("Internal parser regex error")));
        },
    }
    match check_pattern("\\((\\d+)\\)") {
        Ok(()) => {},
        Err(_) => {
            return Err(AppError::Unexpected(String::from_str("Internal parser regex error")));
        },
    }
    Ok(all_captures(line_re, raw))
}

/// The MDOC number and entity name in a line's description: the number in
/// the first parentheses, if any (it must parse as an `i32`), and the
/// description with that part removed, trimmed.
pub open spec fn statement_entity_spec(desc: Seq<char>) -> Result<(Option<i32>, Seq<char>), Seq<char>> {
    let name = trim_spec(regex_replace_first(mdoc_pattern(), desc, Seq::empty()));
    let caps = regex_first_captures(mdoc_pattern(), desc);
    match capture_group(caps, 1) {
        Some(m) => match parse_i32_spec(m) {
            Some(n) => Ok((Some(n), name)),
            None => Err("Invalid mdoc '"@ + m + "' in '"@ + desc + "': "@ + parse_int_error_text(m)),
        },
        None => if caps is Some {
            Err("Invalid mdoc '' in '"@ + desc + "': cannot parse integer from empty string"@)
        } else {
            Ok((None, name))
        },
    }
}

/// Reads the MDOC number and entity name of a line's description (see `statement_entity_spec`).
/// Where the MDOC pattern does not compile, the error is the internal parser error.
pub fn statement_entity(desc: &str) -> (r: Result<(Option<i32>, String), AppError>)
    ensures
        regex_compiled(mdoc_pattern()) is Err ==> (r matches Err(AppError::Unexpected(t)) && t@
            == "Internal parser regex error"@),
        regex_compiled(mdoc_pattern()) is Ok ==> match statement_entity_spec(desc@) {
            Ok((mdoc, name)) => r matches Ok((m, n)) && m == mdoc && n@ == name,
            Err(msg) => r matches Err(AppError::Unexpected(t)) && t@ == msg,
        },
{
    let pattern = "\\((\\d+)\\)";
    match check_pattern(pattern) {
        Ok(()) => {},
        Err(_) => {
            return Err(AppError::Unexpected(String::from_str("Internal parser regex error")));
        },
    }
    let caps = first_captures(pattern, desc);
    let mdoc = match group(&caps, 1) {
        Some(m) => match parse_i32(m.as_str()) {
            Some(n) => Some(n),
            None => {
                let reason = parse_i32_error(m.as_str());
                let text = String::from_str("Invalid mdoc '").concat(m.as_str()).concat("' in '").concat(desc).concat(
                    "': ",
                ).concat(reason.as_str());
                return Err(AppError::Unexpected(text));
            },
        },
        None => {
            if caps.is_some() {
                let text = String::from_str("Invalid mdoc '' in '").concat(desc).concat(
                    "': cannot parse integer from empty string",
                );
                return Err(AppError::Unexpected(text));
            }
            None
        },
    };
    let replaced = replace_first(pattern, desc, "");
    proof {
        reveal_strlit("");
    }
    assert(""@ =~= Seq::<char>::empty());
    Ok((mdoc, trim(replaced.as_str())))
}

/// The kind of a deposit line.
pub open spec fn deposit_line_kind() -> Seq<char> {
    "Recd Client Donation/Dues"@
}

/// The two's complement negation of an amount: `i32::MIN` stays as it is.
pub open spec fn negated(cents: i32) -> i32 {
    if cents == i32::MIN { cents } else { (-cents) as i32 }
}

/// The club transaction of a statement line: a deposit when its kind is the
/// deposit kind, else a withdrawal, whose amount is negated.
pub fn statement_transaction(
    import_id: i32,
    date: NaiveDateTime,
    kind: &str,
    mdoc: Option<i32>,
    name: String,
    cents: i32,
) -> (r: ClubTransaction)
    ensures
        r.deep_view() == (crate::models::ClubTransactionView {
            id: 0,
            import_id,
            entity_name: name@,
            mdoc,
            tx_type: if kind@ == deposit_line_kind() { TransactionType::Deposit } else { TransactionType::Withdrawal },
            amount: if kind@ == deposit_line_kind() { cents } else { negated(cents) },
            date,
        }),
{
    let deposit = String::from_str("Recd Client Donation/Dues");
    let given = String::from_str(kind);
    let (tx_type, amount) = if given == deposit {
        (TransactionType::Deposit, cents)
    } else {
        (TransactionType::Withdrawal, if cents == i32::MIN { cents } else { -cents })
    };
    ClubTransaction { id: 0, import_id, date, tx_type, mdoc, entity_name: name, amount }
}

/// Records the customer a statement line names: an existing customer gets
/// its updated time set to now; an unknown MDOC becomes a new customer with
/// the line's name, added and updated now.
pub fn register_statement_customer<R: CustomerRepoTrait>(repo: &mut R, mdoc: i32, name: &String) -> (r: Result<(), AppError>)
    ensures
        r is Err ==> final(repo).customers() == old(repo).customers(),
        r is Ok ==> one_customer_write(
            old(repo).create_log(),
            final(repo).create_log(),
            old(repo).update_log(),
            final(repo).update_log(),
            true,
        ),
        r is Err ==> one_customer_write(
            old(repo).create_log(),
            final(repo).create_log(),
            old(repo).update_log(),
            final(repo).update_log(),
            false,
        ) || (final(repo).create_log() == old(repo).create_log() && final(repo).update_log() == old(repo).update_log()),
        r is Ok ==> exists|added: NaiveDateTime, updated: NaiveDateTime|
            #![trigger customer_registered(old(repo).customers(), mdoc, name@, added, updated)]
            added.wf() && updated.wf() && final(repo).customers() == customer_registered(
                old(repo).customers(),
                mdoc,
                name@,
                added,
                updated,
            ),
{
    match repo.get_by_mdoc(mdoc) {
        Ok(Some(existing)) => {
            let ghost c = existing.deep_view();
            let mut existing = existing;
            let now = now_utc();
            existing.updated = now;
            let r = repo.update(&existing);
            assert(repo.update_log().drop_last() =~= old(repo).update_log());
            assert(existing.deep_view() == (CustomerView { updated: now, ..c }));
            assert(r is Ok ==> final(repo).customers() == customer_registered(old(repo).customers(), mdoc, name@, now, now));
            r
        },
        Ok(None) => {
            let added = now_utc();
            let updated = now_utc();
            let new_c = Customer { mdoc, name: name.clone(), added, updated };
            let r = repo.create(&new_c);
            assert(repo.create_log().drop_last() =~= old(repo).create_log());
            assert(r is Ok ==> final(repo).customers() == customer_registered(old(repo).customers(), mdoc, name@, added, updated));
            r
        },
        Err(e) => Err(e),
    }
}

/// Whether exactly one write reached the customer store, a `create` or an
/// `update`, with the given result.
pub open spec fn one_customer_write(
    creates_before: Seq<(CustomerView, bool)>,
    creates: Seq<(CustomerView, bool)>,
    updates_before: Seq<(CustomerView, bool)>,
    updates: Seq<(CustomerView, bool)>,
    ok: bool,
) -> bool {
    ||| (creates.len() == creates_before.len() + 1 && creates.drop_last() == creates_before && creates.last().1 == ok
        && updates == updates_before)
    ||| (updates.len() == updates_before.len() + 1 && updates.drop_last() == updates_before && updates.last().1 == ok
        && creates == creates_before)
}

/// Whether a store's log grew from `before` to `after` by calls that all succeeded.
pub open spec fn grew_by_successes<V>(before: Seq<(V, bool)>, after: Seq<(V, bool)>) -> bool {
    &&& before.len() <= after.len()
    &&& after.take(before.len() as int) == before
    &&& forall|x: int| before.len() <= x < after.len() ==> #[trigger] after[x].1
}

/// A log that grew by successes grows by successes after one more success.
pub proof fn lemma_grew_by_success<V>(before: Seq<(V, bool)>, after: Seq<(V, bool)>, e: (V, bool))
    requires
        grew_by_successes(before, after),
        e.1,
    ensures
        grew_by_successes(before, after.push(e)),
{
    assert(after.push(e).take(before.len() as int) =~= after.take(before.len() as int));
}

/// A log grew by successes from itself.
pub proof fn lemma_grew_by_nothing<V>(log: Seq<(V, bool)>)
    ensures
        grew_by_successes(log, log),
{
    assert(log.take(log.len() as int) =~= log);
}

/// The customers after the customer a statement line names is registered:
/// one with its MDOC number keeps its name and added date and gets the
/// updated date `updated` (the clock's reading then); otherwise a new
/// customer with the line's name is appended, added at `added`.
pub open spec fn customer_registered(
    cs: Seq<CustomerView>,
    mdoc: i32,
    name: Seq<char>,
    added: NaiveDateTime,
    updated: NaiveDateTime,
) -> Seq<CustomerView> {
    match customer_with_mdoc(cs, mdoc) {
        Some(c) => customers_updated(cs, CustomerView { updated, ..c }),
        None => cs.push(CustomerView { mdoc, name, added, updated }),
    }
}

/// The customer found by MDOC number has that MDOC number.
proof fn lemma_found_customer_mdoc(cs: Seq<CustomerView>, mdoc: i32)
    ensures
        customer_with_mdoc(cs, mdoc) matches Some(c) ==> c.mdoc == mdoc,
    decreases cs.len(),
{
    if cs.len() > 0 && cs[0].mdoc != mdoc {
        lemma_found_customer_mdoc(cs.drop_first(), mdoc);
    }
}

/// Looking a customer up after one is appended: an earlier one with the
/// MDOC number is still the one found; else the appended one, if it has it.
proof fn lemma_lookup_after_push(cs: Seq<CustomerView>, c: CustomerView, m: i32)
    ensures
        customer_with_mdoc(cs.push(c), m) == (if customer_with_mdoc(cs, m) is Some {
            customer_with_mdoc(cs, m)
        } else if c.mdoc == m {
            Some(c)
        } else {
            None::<CustomerView>
        }),
    decreases cs.len(),
{
    if cs.len() == 0 {
        assert(cs.push(c).drop_first() =~= Seq::<CustomerView>::empty());
    } else {
        assert(cs.push(c).drop_first() =~= cs.drop_first().push(c));
        lemma_lookup_after_push(cs.drop_first(), c, m);
    }
}

/// Looking a customer up after `c` replaces every customer with its MDOC
/// number: that number finds `c` where it found one before, and none
/// otherwise; any other number finds what it found before.
proof fn lemma_lookup_after_update(cs: Seq<CustomerView>, c: CustomerView, m: i32)
    ensures
        customer_with_mdoc(customers_updated(cs, c), m) == (if m == c.mdoc {
            if customer_with_mdoc(cs, m) is Some { Some(c) } else { None::<CustomerView> }
        } else {
            customer_with_mdoc(cs, m)
        }),
    decreases cs.len(),
{
    if cs.len() > 0 {
        assert(customers_updated(cs, c).drop_first() =~= customers_updated(cs.drop_first(), c));
        lemma_lookup_after_update(cs.drop_first(), c, m);
    }
}

/// Registering the customer a statement line names: an MDOC number not yet
/// stored gets a new customer carrying the line's name, added and updated at
/// the given moments, appended after the others; a stored one keeps its
/// name and added date and takes the new updated date; every other MDOC
/// number finds the customer it found before.
pub proof fn registering_a_statement_customer(
    cs: Seq<CustomerView>,
    mdoc: i32,
    name: Seq<char>,
    added: NaiveDateTime,
    updated: NaiveDateTime,
)
    ensures
        ({
            let after = customer_registered(cs, mdoc, name, added, updated);
            &&& customer_with_mdoc(cs, mdoc) is None ==> {
                &&& customer_with_mdoc(after, mdoc) == Some(CustomerView { mdoc, name, added, updated })
                &&& after.len() == cs.len() + 1
                &&& after.take(cs.len() as int) == cs
            }
            &&& customer_with_mdoc(cs, mdoc) matches Some(c) ==> {
                &&& customer_with_mdoc(after, mdoc) matches Some(d)
                &&& d.mdoc == mdoc && d.name == c.name && d.added == c.added && d.updated == updated
                &&& after.len() == cs.len()
            }
            &&& forall|m: i32| m != mdoc ==> #[trigger] customer_with_mdoc(after, m) == customer_with_mdoc(cs, m)
        }),
{
    let after = customer_registered(cs, mdoc, name, added, updated);
    lemma_found_customer_mdoc(cs, mdoc);
    match customer_with_mdoc(cs, mdoc) {
        Some(c) => {
            let d = CustomerView { updated, ..c };
            lemma_lookup_after_update(cs, d, mdoc);
            assert forall|m: i32| m != mdoc implies #[trigger] customer_with_mdoc(after, m) == customer_with_mdoc(cs, m) by {
                lemma_lookup_after_update(cs, d, m);
            }
        },
        None => {
            let d = CustomerView { mdoc, name, added, updated };
            lemma_lookup_after_push(cs, d, mdoc);
            assert(after.take(cs.len() as int) =~= cs);
            assert forall|m: i32| m != mdoc implies #[trigger] customer_with_mdoc(after, m) == customer_with_mdoc(cs, m) by {
                lemma_lookup_after_push(cs, d, m);
            }
        },
    }
}

/// The text of group `i` of a transaction line, empty where the group is missing.
pub open spec fn line_group(caps: Seq<Option<Seq<char>>>, i: int) -> Seq<char> {
    if 0 <= i < caps.len() && caps[i] is Some {
        caps[i]->Some_0
    } else {
        Seq::empty()
    }
}

/// Reads group `i` of a transaction line (see `line_group`).
fn line_text(caps: &Vec<Option<String>>, i: usize) -> (r: String)
    ensures
        r@ == line_group(caps.deep_view(), i as int),
{
    if i < caps.len() {
        match &caps[i] {
            Some(s) => s.clone(),
            None => String::new(),
        }
    } else {
        String::new()
    }
}

/// Whether a line is a deposit.
pub open spec fn line_is_deposit(caps: Seq<Option<Seq<char>>>) -> bool {
    line_group(caps, 2) == deposit_line_kind()
}

/// The label of a line's amount in an error: the kind of its transaction.
pub open spec fn line_label(caps: Seq<Option<Seq<char>>>) -> Seq<char> {
    if line_is_deposit(caps) {
        "Deposit"@
    } else {
        "Withdrawal"@
    }
}

/// Whether a line's date and description read.
pub open spec fn line_readable(caps: Seq<Option<Seq<char>>>) -> bool {
    statement_day(line_group(caps, 1)) is Ok && statement_entity_spec(line_group(caps, 3)) is Ok
}

/// The MDOC number a readable line names, if any.
pub open spec fn line_mdoc(caps: Seq<Option<Seq<char>>>) -> Option<i32> {
    statement_entity_spec(line_group(caps, 3))->Ok_0.0
}

/// The club transaction a readable line records, given its amount in cents.
/// It belongs to import 0: the import record is stored as it was built.
pub open spec fn line_transaction(caps: Seq<Option<Seq<char>>>, cents: i32) -> ClubTransactionView {
    ClubTransactionView {
        id: 0,
        import_id: 0,
        entity_name: statement_entity_spec(line_group(caps, 3))->Ok_0.1,
        mdoc: line_mdoc(caps),
        tx_type: if line_is_deposit(caps) { TransactionType::Deposit } else { TransactionType::Withdrawal },
        amount: if line_is_deposit(caps) { cents } else { negated(cents) },
        date: midnight(statement_day(line_group(caps, 1))->Ok_0),
    }
}

/// A readable statement line records a club transaction of import 0 with
/// the line's name and MDOC number, dated midnight of its date: a deposit of
/// the cents read when its kind is the deposit kind, else a withdrawal of
/// them negated.
pub proof fn line_transaction_is_its_line(caps: Seq<Option<Seq<char>>>, cents: i32)
    requires
        line_readable(caps),
    ensures
        ({
            let t = line_transaction(caps, cents);
            &&& t.id == 0 && t.import_id == 0
            &&& t.entity_name == line_name(caps) && t.mdoc == line_mdoc(caps)
            &&& statement_day(line_group(caps, 1)) == Ok::<NaiveDate, Seq<char>>(t.date.date)
            &&& t.date.time == (crate::datetime::NaiveTime { hour: 0, minute: 0, second: 0, nano: 0 })
            &&& (t.tx_type == TransactionType::Deposit) <==> line_group(caps, 2) == "Recd Client Donation/Dues"@
            &&& t.tx_type == TransactionType::Deposit ==> t.amount == cents
            &&& (t.tx_type == TransactionType::Withdrawal && cents != i32::MIN) ==> t.amount == -cents
        }),
{
}

/// Whether the amount reader, called with a line's amount text and label,
/// gave `Ok(cents)`.
pub open spec fn amount_read<F: Fn(String, String) -> Result<i32, AppError>>(
    money: F,
    caps: Seq<Option<Seq<char>>>,
    cents: i32,
) -> bool {
    exists|a: String, l: String|
        #![trigger money.ensures((a, l), Ok::<i32, AppError>(cents))]
        a@ == line_group(caps, 4) && l@ == line_label(caps) && money.ensures((a, l), Ok::<i32, AppError>(cents))
}

/// Whether `cents` are what the amount reader gave for each line, in order.
pub open spec fn amounts_read<F: Fn(String, String) -> Result<i32, AppError>>(
    money: F,
    lines: Seq<Seq<Option<Seq<char>>>>,
    cents: Seq<i32>,
) -> bool {
    &&& cents.len() == lines.len()
    &&& forall|k: int| 0 <= k < lines.len() ==> #[trigger] amount_read(money, lines[k], cents[k])
}

/// The transactions recorded for the lines, in order.
pub open spec fn lines_transactions(lines: Seq<Seq<Option<Seq<char>>>>, cents: Seq<i32>) -> Seq<ClubTransactionView> {
    Seq::new(lines.len(), |k: int| line_transaction(lines[k], cents[k]))
}

/// The name a readable line gives the customer it names.
pub open spec fn line_name(caps: Seq<Option<Seq<char>>>) -> Seq<char> {
    statement_entity_spec(line_group(caps, 3))->Ok_0.1
}

/// The customers after the customer each line names is registered, in
/// order; `times[k]` are the clock's readings (added, updated) when line `k`
/// was registered. A line that names no MDOC number changes nothing.
pub open spec fn lines_registered(
    cs: Seq<CustomerView>,
    lines: Seq<Seq<Option<Seq<char>>>>,
    times: Seq<(NaiveDateTime, NaiveDateTime)>,
) -> Seq<CustomerView>
    decreases lines.len(),
{
    if lines.len() == 0 {
        cs
    } else {
        let before = lines_registered(cs, lines.drop_last(), times.drop_last());
        match line_mdoc(lines.last()) {
            Some(m) => customer_registered(before, m, line_name(lines.last()), times.last().0, times.last().1),
            None => before,
        }
    }
}

/// Whether a line before `k` names the MDOC number `m`.
pub open spec fn named_before(lines: Seq<Seq<Option<Seq<char>>>>, k: int, m: i32) -> bool {
    exists|j: int| 0 <= j < k && #[trigger] line_mdoc(lines[j]) == Some(m)
}

/// The customers an import registers, for one MDOC number `m`: a customer
/// with `m` is stored afterwards if any line names it; one stored before
/// keeps its name and added date; if none was stored, the customer created
/// carries the name of the first line that names `m`; and if no line names
/// `m`, the customer found by it is the one found before.
pub proof fn imported_customers(
    cs: Seq<CustomerView>,
    lines: Seq<Seq<Option<Seq<char>>>>,
    times: Seq<(NaiveDateTime, NaiveDateTime)>,
    m: i32,
)
    requires
        times.len() == lines.len(),
    ensures
        ({
            let after = lines_registered(cs, lines, times);
            &&& named_before(lines, lines.len() as int, m) ==> customer_with_mdoc(after, m) is Some
            &&& customer_with_mdoc(cs, m) matches Some(c) ==> (customer_with_mdoc(after, m) matches Some(d)
                && d.name == c.name && d.added == c.added && d.mdoc == m)
            &&& !named_before(lines, lines.len() as int, m) ==> customer_with_mdoc(after, m) == customer_with_mdoc(cs, m)
            &&& forall|k: int|
                0 <= k < lines.len() && #[trigger] line_mdoc(lines[k]) == Some(m) && customer_with_mdoc(cs, m) is None
                    && !named_before(lines, k, m) ==> (customer_with_mdoc(after, m) matches Some(d) && d.name == line_name(
                    lines[k],
                ) && d.mdoc == m)
        }),
    decreases lines.len(),
{
    lemma_found_customer_mdoc(cs, m);
    if lines.len() > 0 {
        let dl = lines.drop_last();
        let dt = times.drop_last();
        let n = lines.len() - 1;
        imported_customers(cs, dl, dt, m);
        let prev = lines_registered(cs, dl, dt);
        let after = lines_registered(cs, lines, times);
        lemma_found_customer_mdoc(prev, m);
        assert forall|j: int| 0 <= j < n implies dl[j] == lines[j] by {}
        assert(named_before(dl, n, m) == named_before(lines, n, m)) by {
            if named_before(lines, n, m) {
                let j = choose|j: int| 0 <= j < n && #[trigger] line_mdoc(lines[j]) == Some(m);
                assert(line_mdoc(dl[j]) == Some(m));
            }
            if named_before(dl, n, m) {
                let j = choose|j: int| 0 <= j < n && #[trigger] line_mdoc(dl[j]) == Some(m);
                assert(line_mdoc(lines[j]) == Some(m));
            }
        }
        assert(named_before(lines, lines.len() as int, m) == (named_before(lines, n, m) || line_mdoc(lines[n]) == Some(m))) by {
            if named_before(lines, lines.len() as int, m) && !named_before(lines, n, m) {
                let j = choose|j: int| 0 <= j < lines.len() && #[trigger] line_mdoc(lines[j]) == Some(m);
                assert(j == n);
            }
            if line_mdoc(lines[n]) == Some(m) {
                assert(line_mdoc(lines[n]) == Some(m));
            }
        }
        match line_mdoc(lines.last()) {
            Some(mm) => {
                registering_a_statement_customer(prev, mm, line_name(lines.last()), times.last().0, times.last().1);
                assert(after == customer_registered(prev, mm, line_name(lines.last()), times.last().0, times.last().1));
                if mm != m {
                    assert(customer_with_mdoc(after, m) == customer_with_mdoc(prev, m));
                }
            },
            None => {},
        }
        assert forall|k: int|
            0 <= k < lines.len() && #[trigger] line_mdoc(lines[k]) == Some(m) && customer_with_mdoc(cs, m) is None
                && !named_before(lines, k, m) implies (customer_with_mdoc(after, m) matches Some(d) && d.name == line_name(
            lines[k],
        ) && d.mdoc == m) by {
            if k < n {
                assert(line_mdoc(dl[k]) == Some(m));
                assert(named_before(dl, k, m) == named_before(lines, k, m)) by {
                    if named_before(lines, k, m) {
                        let j = choose|j: int| 0 <= j < k && #[trigger] line_mdoc(lines[j]) == Some(m);
                        assert(line_mdoc(dl[j]) == Some(m));
                    }
                    if named_before(dl, k, m) {
                        let j = choose|j: int| 0 <= j < k && #[trigger] line_mdoc(dl[j]) == Some(m);
                        assert(line_mdoc(lines[j]) == Some(m));
                    }
                }
                assert(named_before(lines, n, m)) by {
                    assert(line_mdoc(lines[k]) == Some(m));
                }
            } else {
                assert(k == n);
                assert(lines.last() == lines[n]);
            }
        }
    }
}

/// Where an import of `lines` stands once it stops: the first `j` lines were
/// read, with `cents` from the amount reader, and their transactions stored
/// after `txs_before`; the customers of the first `k` of them were
/// registered after `cs_before`, with the clock readings `times`. At most one
/// line has its transaction stored but not its customer.
pub open spec fn import_stopped<F: Fn(String, String) -> Result<i32, AppError>>(
    money: F,
    lines: Seq<Seq<Option<Seq<char>>>>,
    txs_before: Seq<ClubTransactionView>,
    txs: Seq<ClubTransactionView>,
    cs_before: Seq<CustomerView>,
    cs: Seq<CustomerView>,
    j: int,
    k: int,
    cents: Seq<i32>,
    times: Seq<(NaiveDateTime, NaiveDateTime)>,
) -> bool {
    &&& 0 <= k <= j <= lines.len()
    &&& j <= k + 1
    &&& forall|x: int| 0 <= x < j ==> #[trigger] line_readable(lines[x])
    &&& amounts_read(money, lines.take(j), cents)
    &&& txs == txs_before + lines_transactions(lines.take(j), cents)
    &&& times.len() == k
    &&& cs == lines_registered(cs_before, lines.take(k), times)
}

/// The error a transaction line's date or description gives, if any: a
/// date that does not parse, then a description whose MDOC number does not.
pub open spec fn line_error(caps: Seq<Option<Seq<char>>>) -> Option<Seq<char>> {
    match statement_day(line_group(caps, 1)) {
        Err(why) => Some(invalid_date_text("transaction date"@, line_group(caps, 1), why)),
        Ok(_) => match statement_entity_spec(line_group(caps, 3)) {
            Err(m) => Some(m),
            Ok(_) => None,
        },
    }
}

/// Whether the amount reader, called with a line's amount text and label,
/// gave the error `e`.
pub open spec fn amount_failed<F: Fn(String, String) -> Result<i32, AppError>>(
    money: F,
    caps: Seq<Option<Seq<char>>>,
    e: AppError,
) -> bool {
    exists|a: String, l: String|
        #![trigger money.ensures((a, l), Err::<i32, AppError>(e))]
        a@ == line_group(caps, 4) && l@ == line_label(caps) && money.ensures((a, l), Err::<i32, AppError>(e))
}

/// How many of the lines name an MDOC number.
pub open spec fn mdoc_lines(lines: Seq<Seq<Option<Seq<char>>>>) -> int
    decreases lines.len(),
{
    if lines.len() == 0 {
        0
    } else {
        mdoc_lines(lines.drop_last()) + if line_mdoc(lines.last()) is Some { 1int } else { 0int }
    }
}

/// Whether the customer store's logs of creates and updates grew by `n`
/// writes, all of which succeeded.
pub open spec fn customer_writes_ok(
    creates_before: Seq<(CustomerView, bool)>,
    creates: Seq<(CustomerView, bool)>,
    updates_before: Seq<(CustomerView, bool)>,
    updates: Seq<(CustomerView, bool)>,
    n: int,
) -> bool {
    &&& grew_by_successes(creates_before, creates)
    &&& grew_by_successes(updates_before, updates)
    &&& (creates.len() - creates_before.len()) + (updates.len() - updates_before.len()) == n
}

/// Whether registering a customer failed after `n` writes that succeeded:
/// either the lookup of its MDOC number failed (no write), or one more
/// write was made and failed.
pub open spec fn customer_write_failed(
    creates_before: Seq<(CustomerView, bool)>,
    creates: Seq<(CustomerView, bool)>,
    updates_before: Seq<(CustomerView, bool)>,
    updates: Seq<(CustomerView, bool)>,
    n: int,
) -> bool {
    ||| customer_writes_ok(creates_before, creates, updates_before, updates, n)
    ||| (creates.len() > creates_before.len() && !creates.last().1
        && customer_writes_ok(creates_before, creates.drop_last(), updates_before, updates, n))
    ||| (updates.len() > updates_before.len() && !updates.last().1
        && customer_writes_ok(creates_before, creates, updates_before, updates.drop_last(), n))
}

/// Why an import that had stored its header stopped at line `j`, with the
/// customers of the first `k` lines registered: line `j`'s date or
/// description gives `e`; or the amount reader gave `e` for it; or storing
/// its transaction failed; or, its transaction stored, registering the
/// customer it names failed. `transactions*` are the transaction store's
/// log of `create` calls, `creates*` and `updates*` the customer store's.
pub open spec fn import_stop_cause<F: Fn(String, String) -> Result<i32, AppError>>(
    money: F,
    lines: Seq<Seq<Option<Seq<char>>>>,
    j: int,
    k: int,
    e: AppError,
    transactions_before: Seq<(ClubTransactionView, bool)>,
    transactions: Seq<(ClubTransactionView, bool)>,
    creates_before: Seq<(CustomerView, bool)>,
    creates: Seq<(CustomerView, bool)>,
    updates_before: Seq<(CustomerView, bool)>,
    updates: Seq<(CustomerView, bool)>,
) -> bool {
    let stored_ok = grew_by_successes(transactions_before, transactions) && transactions.len()
        == transactions_before.len() + j;
    let registered_ok = customer_writes_ok(creates_before, creates, updates_before, updates, mdoc_lines(lines.take(k)));
    ||| (j == k && j < lines.len() && stored_ok && registered_ok && (line_error(lines[j]) matches Some(m) && (
    e matches AppError::Unexpected(t) && t@ == m)))
    ||| (j == k && j < lines.len() && stored_ok && registered_ok && line_error(lines[j]) is None && amount_failed(
        money,
        lines[j],
        e,
    ))
    ||| (j == k && j < lines.len() && registered_ok && line_error(lines[j]) is None && transactions.len()
        == transactions_before.len() + j + 1 && grew_by_successes(transactions_before, transactions.drop_last())
        && !transactions.last().1 && exists|c: i32|
        #[trigger] amount_read(money, lines[j], c) && transactions.last().0 == line_transaction(lines[j], c))
    ||| (j == k + 1 && stored_ok && line_mdoc(lines[k]) is Some && customer_write_failed(
        creates_before,
        creates,
        updates_before,
        updates,
        mdoc_lines(lines.take(k)),
    ))
}

/// One more successful write keeps the customer store's writes successful.
proof fn lemma_customer_write_ok(
    cb: Seq<(CustomerView, bool)>,
    c0: Seq<(CustomerView, bool)>,
    c: Seq<(CustomerView, bool)>,
    ub: Seq<(CustomerView, bool)>,
    u0: Seq<(CustomerView, bool)>,
    u: Seq<(CustomerView, bool)>,
    n: int,
)
    requires
        customer_writes_ok(cb, c0, ub, u0, n),
        one_customer_write(c0, c, u0, u, true),
    ensures
        customer_writes_ok(cb, c, ub, u, n + 1),
{
    if c.len() == c0.len() + 1 && c.drop_last() == c0 && c.last().1 && u == u0 {
        assert(c =~= c0.push(c.last()));
        lemma_grew_by_success(cb, c0, c.last());
    } else {
        assert(u =~= u0.push(u.last()));
        lemma_grew_by_success(ub, u0, u.last());
    }
}

/// Importing a club account statement from the text of its PDF.
pub struct PdfParseUseCases<I, T, C> {
    pub import_repo: I,
    pub tx_repo: T,
    pub cust_repo: C,
}

impl<I: ClubImportRepoTrait, T: ClubTransactionRepoTrait, C: CustomerRepoTrait> PdfParseUseCases<I, T, C> {
    pub fn new(import_repo: I, tx_repo: T, cust_repo: C) -> (r: Self)
        ensures
            r.import_repo == import_repo,
            r.tx_repo == tx_repo,
            r.cust_repo == cust_repo,
    {
        PdfParseUseCases { import_repo, tx_repo, cust_repo }
    }

    /// Imports a statement: its header becomes an import record, which is
    /// stored; then each transaction line, in order, is read (date,
    /// description, amount), stored as a club transaction, and the customer
    /// it names is registered. `money` turns a line's amount text into cents,
    /// given the transaction kind as the label of its errors. The first error
    /// stops the import, keeping what was stored before it: an error of the
    /// statement's text, of the amount reader, or of a store.
    pub fn pdf_parse<F: Fn(String, String) -> Result<i32, AppError>>(&mut self, filename: String, raw: &str, money: F) -> (r: Result<ClubImport, AppError>)
        requires
            forall|a: String, l: String| #[trigger] money.requires((a, l)),
        ensures
            statement_import_result(raw@, filename@) matches Err(m) ==> {
                &&& r matches Err(AppError::Unexpected(t)) && t@ == m
                &&& final(self).import_repo.imports() == old(self).import_repo.imports()
                &&& final(self).import_repo.create_log() == old(self).import_repo.create_log()
                &&& final(self).tx_repo.transactions() == old(self).tx_repo.transactions()
                &&& final(self).tx_repo.create_log() == old(self).tx_repo.create_log()
                &&& final(self).cust_repo.customers() == old(self).cust_repo.customers()
                &&& final(self).cust_repo.create_log() == old(self).cust_repo.create_log()
                &&& final(self).cust_repo.update_log() == old(self).cust_repo.update_log()
            },
            r matches Ok(imp) ==> {
                let lines = regex_all_captures(line_pattern(), raw@);
                &&& statement_import_result(raw@, filename@) == Ok::<ClubImportView, Seq<char>>(imp.deep_view())
                &&& final(self).import_repo.imports() == old(self).import_repo.imports().push(imp.deep_view())
                &&& final(self).import_repo.create_log() == old(self).import_repo.create_log().push((imp.deep_view(), true))
                &&& grew_by_successes(old(self).tx_repo.create_log(), final(self).tx_repo.create_log())
                &&& final(self).tx_repo.create_log().len() == old(self).tx_repo.create_log().len() + lines.len()
                &&& customer_writes_ok(
                    old(self).cust_repo.create_log(),
                    final(self).cust_repo.create_log(),
                    old(self).cust_repo.update_log(),
                    final(self).cust_repo.update_log(),
                    mdoc_lines(lines),
                )
                &&& exists|cents: Seq<i32>, times: Seq<(NaiveDateTime, NaiveDateTime)>|
                    #[trigger] import_stopped(
                        money,
                        lines,
                        old(self).tx_repo.transactions(),
                        final(self).tx_repo.transactions(),
                        old(self).cust_repo.customers(),
                        final(self).cust_repo.customers(),
                        lines.len() as int,
                        lines.len() as int,
                        cents,
                        times,
                    )
            },
            r matches Err(e) ==> (statement_import_result(raw@, filename@) matches Ok(header) ==> {
                let lines = regex_all_captures(line_pattern(), raw@);
                ||| {
                    &&& final(self).import_repo.imports() == old(self).import_repo.imports()
                    &&& final(self).import_repo.create_log() == old(self).import_repo.create_log().push((header, false))
                    &&& final(self).tx_repo.transactions() == old(self).tx_repo.transactions()
                    &&& final(self).tx_repo.create_log() == old(self).tx_repo.create_log()
                    &&& final(self).cust_repo.customers() == old(self).cust_repo.customers()
                    &&& final(self).cust_repo.create_log() == old(self).cust_repo.create_log()
                    &&& final(self).cust_repo.update_log() == old(self).cust_repo.update_log()
                }
                ||| {
                    &&& final(self).import_repo.imports() == old(self).import_repo.imports().push(header)
                    &&& final(self).import_repo.create_log() == old(self).import_repo.create_log().push((header, true))
                    &&& (regex_compiled(line_pattern()) is Err || regex_compiled(mdoc_pattern()) is Err)
                    &&& (e matches AppError::Unexpected(t) && t@ == "Internal parser regex error"@)
                    &&& final(self).tx_repo.transactions() == old(self).tx_repo.transactions()
                    &&& final(self).tx_repo.create_log() == old(self).tx_repo.create_log()
                    &&& final(self).cust_repo.customers() == old(self).cust_repo.customers()
                    &&& final(self).cust_repo.create_log() == old(self).cust_repo.create_log()
                    &&& final(self).cust_repo.update_log() == old(self).cust_repo.update_log()
                }
                ||| {
                    &&& final(self).import_repo.imports() == old(self).import_repo.imports().push(header)
                    &&& final(self).import_repo.create_log() == old(self).import_repo.create_log().push((header, true))
                    &&& exists|j: int, k: int, cents: Seq<i32>, times: Seq<(NaiveDateTime, NaiveDateTime)>|
                        #[trigger] import_stopped(
                            money,
                            lines,
                            old(self).tx_repo.transactions(),
                            final(self).tx_repo.transactions(),
                            old(self).cust_repo.customers(),
                            final(self).cust_repo.customers(),
                            j,
                            k,
                            cents,
                            times,
                        ) && import_stop_cause(
                            money,
                            lines,
                            j,
                            k,
                            e,
                            old(self).tx_repo.create_log(),
                            final(self).tx_repo.create_log(),
                            old(self).cust_repo.create_log(),
                            final(self).cust_repo.create_log(),
                            old(self).cust_repo.update_log(),
                            final(self).cust_repo.update_log(),
                        )
                }
            }),
    {
        let ghost all = regex_all_captures(line_pattern(), raw@);
        let ghost txs0 = self.tx_repo.transactions();
        let ghost cs0 = self.cust_repo.customers();
        let ghost tl0 = self.tx_repo.create_log();
        let ghost cl0 = self.cust_repo.create_log();
        let ghost ul0 = self.cust_repo.update_log();
        let ghost il0 = self.import_repo.create_log();
        let ghost no_cents: Seq<i32> = Seq::empty();
        let ghost no_times: Seq<(NaiveDateTime, NaiveDateTime)> = Seq::empty();
        proof {
            assert(lines_transactions(all.take(0), no_cents) =~= Seq::<ClubTransactionView>::empty());
            assert(all.take(0).len() == 0);
            assert(import_stopped(money, all, txs0, txs0, cs0, cs0, 0, 0, no_cents, no_times));
            lemma_grew_by_nothing(tl0);
            lemma_grew_by_nothing(cl0);
            lemma_grew_by_nothing(ul0);
            assert(mdoc_lines(all.take(0)) == 0);
        }
        let import = match statement_import(filename, raw) {
            Ok(i) => i,
            Err(e) => {
                return Err(e);
            },
        };
        match self.import_repo.create(&import) {
            Ok(()) => {},
            Err(e) => {
                return Err(e);
            },
        }
        let lines = match statement_lines(raw) {
            Ok(l) => l,
            Err(e) => {
                return Err(e);
            },
        };
        let ghost mut cents_read: Seq<i32> = Seq::empty();
        let ghost mut times_read: Seq<(NaiveDateTime, NaiveDateTime)> = Seq::empty();
        let n = lines.len();
        let mut i: usize = 0;
        while i < n
            invariant
                n == lines@.len(),
                all == lines.deep_view(),
                all == regex_all_captures(line_pattern(), raw@),
                regex_compiled(mdoc_pattern()) is Ok,
                i <= n,
                forall|a: String, l: String| #[trigger] money.requires((a, l)),
                self.import_repo.imports() == old(self).import_repo.imports().push(import.deep_view()),
                self.import_repo.create_log() == old(self).import_repo.create_log().push((import.deep_view(), true)),
                statement_import_result(raw@, filename@) == Ok::<ClubImportView, Seq<char>>(import.deep_view()),
                txs0 == old(self).tx_repo.transactions(),
                cs0 == old(self).cust_repo.customers(),
                tl0 == old(self).tx_repo.create_log(),
                cl0 == old(self).cust_repo.create_log(),
                ul0 == old(self).cust_repo.update_log(),
                import_stopped(
                    money,
                    all,
                    txs0,
                    self.tx_repo.transactions(),
                    cs0,
                    self.cust_repo.customers(),
                    i as int,
                    i as int,
                    cents_read,
                    times_read,
                ),
                grew_by_successes(tl0, self.tx_repo.create_log()),
                self.tx_repo.create_log().len() == tl0.len() + i,
                customer_writes_ok(
                    cl0,
                    self.cust_repo.create_log(),
                    ul0,
                    self.cust_repo.update_log(),
                    mdoc_lines(all.take(i as int)),
                ),
            decreases n - i,
        {
            let caps = &lines[i];
            assert(caps.deep_view() == all[i as int]);
            let date_text = line_text(caps, 1);
            let tdate = match parse_date_midnight(date_text.as_str(), "transaction date") {
                Ok(d) => d,
                Err(e) => {
                    assert(import_stop_cause(
                        money,
                        all,
                        i as int,
                        i as int,
                        e,
                        tl0,
                        self.tx_repo.create_log(),
                        cl0,
                        self.cust_repo.create_log(),
                        ul0,
                        self.cust_repo.update_log(),
                    ));
                    return Err(e);
                },
            };
            let kind = line_text(caps, 2);
            let desc = line_text(caps, 3);
            let (mdoc, name) = match statement_entity(desc.as_str()) {
                Ok(p) => p,
                Err(e) => {
                    assert(import_stop_cause(
                        money,
                        all,
                        i as int,
                        i as int,
                        e,
                        tl0,
                        self.tx_repo.create_log(),
                        cl0,
                        self.cust_repo.create_log(),
                        ul0,
                        self.cust_repo.update_log(),
                    ));
                    return Err(e);
                },
            };
            assert(line_error(all[i as int]) is None);
            let deposit = String::from_str("Recd Client Donation/Dues");
            let label = if kind == deposit {
                String::from_str("Deposit")
            } else {
                String::from_str("Withdrawal")
            };
            let amount_text = line_text(caps, 4);
            let ghost a_given = amount_text;
            let ghost l_given = label;
            let cents = match money(amount_text, label) {
                Ok(c) => c,
                Err(e) => {
                    assert(amount_failed(money, all[i as int], e)) by {
                        assert(money.ensures((a_given, l_given), Err::<i32, AppError>(e)));
                    }
                    assert(import_stop_cause(
                        money,
                        all,
                        i as int,
                        i as int,
                        e,
                        tl0,
                        self.tx_repo.create_log(),
                        cl0,
                        self.cust_repo.create_log(),
                        ul0,
                        self.cust_repo.update_log(),
                    ));
                    return Err(e);
                },
            };
            let tx = statement_transaction(0, tdate, kind.as_str(), mdoc, name.clone(), cents);
            assert(tx.deep_view() == line_transaction(all[i as int], cents));
            assert(amount_read(money, all[i as int], cents)) by {
                assert(money.ensures((a_given, l_given), Ok::<i32, AppError>(cents)));
            }
            let ghost before_txs = self.tx_repo.transactions();
            let ghost before_tlog = self.tx_repo.create_log();
            let ghost before_customers = self.cust_repo.customers();
            match self.tx_repo.create(&tx) {
                Ok(()) => {},
                Err(e) => {
                    assert(self.tx_repo.create_log().drop_last() =~= before_tlog);
                    assert(import_stopped(
                        money,
                        all,
                        txs0,
                        self.tx_repo.transactions(),
                        cs0,
                        self.cust_repo.customers(),
                        i as int,
                        i as int,
                        cents_read,
                        times_read,
                    ));
                    assert(import_stop_cause(
                        money,
                        all,
                        i as int,
                        i as int,
                        e,
                        tl0,
                        self.tx_repo.create_log(),
                        cl0,
                        self.cust_repo.create_log(),
                        ul0,
                        self.cust_repo.update_log(),
                    ));
                    return Err(e);
                },
            }
            let ghost new_cents = cents_read.push(cents);
            proof {
                lemma_grew_by_success(tl0, before_tlog, (tx.deep_view(), true));
                assert(line_readable(all[i as int]));
                assert(all.take(i as int + 1).drop_last() =~= all.take(i as int));
                assert(all.take(i as int + 1)[i as int] == all[i as int]);
                assert(amounts_read(money, all.take(i as int + 1), new_cents)) by {
                    assert forall|k: int| 0 <= k < i + 1 implies #[trigger] amount_read(
                        money,
                        all.take(i as int + 1)[k],
                        new_cents[k],
                    ) by {
                        if k < i {
                            assert(amount_read(money, all.take(i as int)[k], cents_read[k]));
                        }
                    }
                }
                assert(lines_transactions(all.take(i as int + 1), new_cents) =~= lines_transactions(
                    all.take(i as int),
                    cents_read,
                ).push(tx.deep_view()));
                assert(forall|x: int| 0 <= x < i + 1 ==> #[trigger] line_readable(all[x]));
                assert(import_stopped(
                    money,
                    all,
                    txs0,
                    self.tx_repo.transactions(),
                    cs0,
                    self.cust_repo.customers(),
                    i as int + 1,
                    i as int,
                    new_cents,
                    times_read,
                ));
            }
            let ghost before_clog = self.cust_repo.create_log();
            let ghost before_ulog = self.cust_repo.update_log();
            let ghost mut reading: (NaiveDateTime, NaiveDateTime) = (tdate, tdate);
            match mdoc {
                Some(m) => {
                    match register_statement_customer(&mut self.cust_repo, m, &name) {
                        Ok(()) => {},
                        Err(e) => {
                            assert(customer_write_failed(
                                cl0,
                                self.cust_repo.create_log(),
                                ul0,
                                self.cust_repo.update_log(),
                                mdoc_lines(all.take(i as int)),
                            ));
                            assert(import_stopped(
                                money,
                                all,
                                txs0,
                                self.tx_repo.transactions(),
                                cs0,
                                self.cust_repo.customers(),
                                i as int + 1,
                                i as int,
                                new_cents,
                                times_read,
                            ));
                            assert(import_stop_cause(
                                money,
                                all,
                                i as int + 1,
                                i as int,
                                e,
                                tl0,
                                self.tx_repo.create_log(),
                                cl0,
                                self.cust_repo.create_log(),
                                ul0,
                                self.cust_repo.update_log(),
                            ));
                            return Err(e);
                        },
                    }
                    proof {
                        lemma_customer_write_ok(
                            cl0,
                            before_clog,
                            self.cust_repo.create_log(),
                            ul0,
                            before_ulog,
                            self.cust_repo.update_log(),
                            mdoc_lines(all.take(i as int)),
                        );
                        reading = choose|added: NaiveDateTime, updated: NaiveDateTime|
                            #![trigger customer_registered(before_customers, m, name@, added, updated)]
                            added.wf() && updated.wf() && self.cust_repo.customers() == customer_registered(
                                before_customers,
                                m,
                                name@,
                                added,
                                updated,
                            );
                    }
                },
                None => {},
            }
            proof {
                let new_times = times_read.push(reading);
                assert(new_times.drop_last() =~= times_read);
                assert(all.take(i as int + 1).last() == all[i as int]);
                assert(self.cust_repo.customers() == lines_registered(cs0, all.take(i as int + 1), new_times));
                assert(mdoc_lines(all.take(i as int + 1)) == mdoc_lines(all.take(i as int)) + if line_mdoc(
                    all[i as int],
                ) is Some {
                    1int
                } else {
                    0int
                });
                times_read = new_times;
                cents_read = new_cents;
            }
            i = i + 1;
        }
        proof {
            assert(all.take(n as int) =~= all);
        }
        Ok(import)
    }
}

} // verus!
