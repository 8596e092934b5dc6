//! Invoice records: their fields, the checks an upsert must pass, how an
//! upsert merges into a stored record, and when an invoice is overdue.

use vstd::prelude::*;

use crate::dates;
pub use crate::dates::parse_due_date;
pub use crate::tenant::invoices_map;

verus! {

/// Seconds in one day.
pub const SECS_PER_DAY: u64 = 86400;

/// Payment status of an invoice.
#[derive(Clone, Copy, PartialEq, Eq, Structural, Debug)]
pub enum Status {
    Open,
    Paid,
    Void,
}

/// One invoice record, stored under key = `invoice_id`. Business data only:
/// the customer is identified by `customer_ref`, an opaque business reference.
#[derive(Debug)]
pub struct Invoice {
    pub invoice_id: String,
    pub customer_ref: String,
    /// Decimal string ("1250.00"), never a float, so amounts round-trip exactly.
    pub amount: String,
    pub currency: String,
    /// YYYY-MM-DD.
    pub due_date: String,
    pub status: Status,
    pub created_at_epoch_secs: u64,
    pub reminded_at_epoch_secs: Option<u64>,
    pub reminder_count: u32,
}

/// The fields an upsert request carries.
#[derive(Debug)]
pub struct UpsertReq {
    pub invoice_id: String,
    pub customer_ref: String,
    pub amount: String,
    pub currency: String,
    pub due_date: String,
    pub status: Option<Status>,
}

/// An invoice is overdue when it is open and its due day lies strictly
/// before the day that `now_epoch_secs` falls in.
pub open spec fn invoice_is_overdue(inv: Invoice, now_epoch_secs: u64) -> bool {
    &&& inv.status == Status::Open
    &&& dates::is_valid_due_date(inv.due_date@)
    &&& dates::due_date_day(inv.due_date@) < now_epoch_secs / 86400
}

pub fn is_overdue(inv: &Invoice, now_epoch_secs: u64) -> (r: bool)
    ensures
        r == invoice_is_overdue(*inv, now_epoch_secs),
{
    inv.status == Status::Open && match parse_due_date(inv.due_date.as_str()) {
        Ok(due_day) => due_day < (now_epoch_secs / SECS_PER_DAY) as i64,
        // stored dates were validated at upsert; be conservative
        Err(_) => false,
    }
}

// ---------------------------------------------------------------------------
// Upsert validation
// ---------------------------------------------------------------------------

/// A byte allowed in an invoice id: `[A-Za-z0-9._-]`.
pub open spec fn is_id_byte(b: u8) -> bool {
    ||| 48 <= b <= 57
    ||| 65 <= b <= 90
    ||| 97 <= b <= 122
    ||| b == 46
    ||| b == 95
    ||| b == 45
}

/// 1 to 64 bytes, each one of `[A-Za-z0-9._-]`.
pub open spec fn is_valid_invoice_id(id: Seq<char>) -> bool {
    let b = vstd::utf8::encode_utf8(id);
    &&& 1 <= b.len() <= 64
    &&& forall|i: int| 0 <= i < b.len() ==> is_id_byte(#[trigger] b[i])
}

/// Not empty, at most 128 bytes.
pub open spec fn has_valid_customer_ref_length(r: Seq<char>) -> bool {
    r.len() != 0 && vstd::utf8::encode_utf8(r).len() <= 128
}

/// At most 20 bytes: one or more digits, optionally followed by `.` and 1 to 4 digits.
pub open spec fn is_decimal_amount(b: Seq<u8>) -> bool {
    &&& b.len() <= 20
    &&& {
        ||| (b.len() >= 1 && dates::all_digit_bytes(b, 0, b.len() as int))
        ||| exists|p: int|
            1 <= p && p + 2 <= b.len() <= p + 5 && #[trigger] b[p] == 46 && dates::all_digit_bytes(b, 0, p)
                && dates::all_digit_bytes(b, p + 1, b.len() as int)
    }
}

/// Exactly three ASCII uppercase letters.
pub open spec fn is_currency_code(b: Seq<u8>) -> bool {
    b.len() == 3 && forall|i: int| 0 <= i < 3 ==> 65 <= #[trigger] b[i] <= 90
}

pub open spec fn msg_bad_invoice_id() -> Seq<char> {
    "upsert-invoice: bad input: invoice_id must be 1-64 chars of [A-Za-z0-9._-]"@
}

pub open spec fn msg_bad_customer_ref_length() -> Seq<char> {
    "upsert-invoice: bad input: customer_ref must be 1-128 chars"@
}

pub open spec fn msg_customer_ref_is_email() -> Seq<char> {
    "upsert-invoice: bad input: customer_ref must be an opaque business reference, not an email address \u{2014} customer contact details live in the user profile and never enter this contract"@
}

pub open spec fn msg_bad_amount(amount: Seq<char>) -> Seq<char> {
    "upsert-invoice: bad input: amount must be a decimal string like \"1250.00\", got \""@ + amount + "\""@
}

pub open spec fn msg_bad_currency(currency: Seq<char>) -> Seq<char> {
    "upsert-invoice: bad input: currency must be a 3-letter uppercase code, got \""@ + currency + "\""@
}

pub open spec fn msg_bad_due_date(due: Seq<char>) -> Seq<char> {
    "upsert-invoice: bad input: "@ + dates::bad_due_date_message(due)
}

/// The message of the first check that `req` fails, in the order the checks
/// run; `None` when it passes them all.
pub open spec fn upsert_rejection(req: UpsertReq) -> Option<Seq<char>> {
    if !is_valid_invoice_id(req.invoice_id@) {
        Some(msg_bad_invoice_id())
    } else if !has_valid_customer_ref_length(req.customer_ref@) {
        Some(msg_bad_customer_ref_length())
    } else if req.customer_ref@.contains('@') {
        Some(msg_customer_ref_is_email())
    } else if !is_decimal_amount(vstd::utf8::encode_utf8(req.amount@)) {
        Some(msg_bad_amount(req.amount@))
    } else if !is_currency_code(vstd::utf8::encode_utf8(req.currency@)) {
        Some(msg_bad_currency(req.currency@))
    } else if !dates::is_valid_due_date(req.due_date@) {
        Some(msg_bad_due_date(req.due_date@))
    } else {
        None
    }
}

fn check_invoice_id(id: &str) -> (ok: bool)
    ensures
        ok == is_valid_invoice_id(id@),
        ok <==> {
            let b = vstd::utf8::encode_utf8(id@);
            &&& 1 <= b.len() <= 64
            &&& forall|i: int|
                0 <= i < b.len() ==> {
                    let c = #[trigger] b[i];
                    ||| ('a' as u8) <= c <= ('z' as u8)
                    ||| ('A' as u8) <= c <= ('Z' as u8)
                    ||| ('0' as u8) <= c <= ('9' as u8)
                    ||| c == '.' as u8
                    ||| c == '_' as u8
                    ||| c == '-' as u8
                }
        },
{
    let b = id.as_bytes();
    if b.len() == 0 || b.len() > 64 {
        return false;
    }
    let mut i: usize = 0;
    while i < b.len()
        invariant
            b@ == vstd::utf8::encode_utf8(id@),
            i <= b@.len(),
            forall|j: int| 0 <= j < i ==> is_id_byte(#[trigger] b@[j]),
        decreases b@.len() - i,
    {
        let c = b[i];
        let allowed = (48 <= c && c <= 57) || (65 <= c && c <= 90) || (97 <= c && c <= 122) || c == 46
            || c == 95 || c == 45;
        if !allowed {
            return false;
        }
        i = i + 1;
    }
    true
}

fn contains_at_sign(s: &str) -> (found: bool)
    ensures
        found == s@.contains('@'),
{
    let n = s.unicode_len();
    let mut i: usize = 0;
    while i < n
        invariant
            n == s@.len(),
            i <= n,
            forall|j: int| 0 <= j < i ==> s@[j] != '@',
        decreases n - i,
    {
        if s.get_char(i) == '@' {
            return true;
        }
        i = i + 1;
    }
    false
}

fn all_digits_between(b: &[u8], lo: usize, hi: usize) -> (ok: bool)
    requires
        lo <= hi <= b@.len(),
    ensures
        ok == dates::all_digit_bytes(b@, lo as int, hi as int),
{
    let mut i = lo;
    while i < hi
        invariant
            lo <= i <= hi <= b@.len(),
            dates::all_digit_bytes(b@, lo as int, i as int),
        decreases hi - i,
    {
        if b[i] < 48 || b[i] > 57 {
            return false;
        }
        i = i + 1;
    }
    true
}

fn check_amount(amount: &str) -> (ok: bool)
    ensures
        ok == is_decimal_amount(vstd::utf8::encode_utf8(amount@)),
{
    let b = amount.as_bytes();
    let n = b.len();
    if n > 20 {
        return false;
    }
    // the digits before the first non-digit byte
    let mut p: usize = 0;
    while p < n && 48 <= b[p] && b[p] <= 57
        invariant
            p <= n == b@.len(),
            dates::all_digit_bytes(b@, 0, p as int),
        decreases n - p,
    {
        p = p + 1;
    }
    if p == n {
        proof {
            if n >= 1 {
            } else {
                assert forall|q: int|
                    1 <= q && q + 2 <= b@.len() <= q + 5 && #[trigger] b@[q] == 46 implies false by {}
            }
        }
        return n >= 1;
    }
    if b[p] != 46 || p == 0 {
        proof {
            assert(!dates::all_digit_bytes(b@, 0, n as int));
            assert forall|q: int|
                1 <= q && q + 2 <= b@.len() <= q + 5 && #[trigger] b@[q] == 46 && dates::all_digit_bytes(b@, 0, q)
                implies false by {
                if q > p as int {
                    assert(dates::is_digit_byte(b@[p as int]));
                } else if q < p as int {
                    assert(dates::is_digit_byte(b@[q]));
                }
            }
        }
        return false;
    }
    let frac = n - p - 1;
    let ok = 1 <= frac && frac <= 4 && all_digits_between(b, p + 1, n);
    proof {
        assert(!dates::all_digit_bytes(b@, 0, n as int));
        if ok {
            assert(b@[p as int] == 46);
        } else {
            assert forall|q: int|
                1 <= q && q + 2 <= b@.len() <= q + 5 && #[trigger] b@[q] == 46 && dates::all_digit_bytes(b@, 0, q)
                    && dates::all_digit_bytes(b@, q + 1, b@.len() as int)
                implies false by {
                if q > p as int {
                    assert(dates::is_digit_byte(b@[p as int]));
                } else if q < p as int {
                    assert(dates::is_digit_byte(b@[q]));
                }
            }
        }
    }
    ok
}

fn check_currency(currency: &str) -> (ok: bool)
    ensures
        ok == is_currency_code(vstd::utf8::encode_utf8(currency@)),
{
    let b = currency.as_bytes();
    if b.len() != 3 {
        return false;
    }
    let ok = 65 <= b[0] && b[0] <= 90 && 65 <= b[1] && b[1] <= 90 && 65 <= b[2] && b[2] <= 90;
    proof {
        if !ok {
            if !(65 <= b@[0] <= 90) {
                assert(!(65 <= b@[0] <= 90));
            } else if !(65 <= b@[1] <= 90) {
                assert(!(65 <= b@[1] <= 90));
            } else {
                assert(!(65 <= b@[2] <= 90));
            }
        }
    }
    ok
}

fn quoted_message(prefix: &str, value: &str) -> (msg: String)
    ensures
        msg@ == prefix@ + value@ + "\""@,
{
    let mut msg = prefix.to_owned();
    msg.append(value);
    msg.append("\"");
    msg
}

/// Checks an upsert request; on failure the message names the first rule broken.
pub fn validate(req: &UpsertReq) -> (r: Result<(), String>)
    ensures
        match upsert_rejection(*req) {
            None => r is Ok,
            Some(msg) => r matches Err(e) && e@ == msg,
        },
{
    if !check_invoice_id(req.invoice_id.as_str()) {
        return Err("upsert-invoice: bad input: invoice_id must be 1-64 chars of [A-Za-z0-9._-]".to_owned());
    }
    if req.customer_ref.as_str().as_bytes().len() == 0 || req.customer_ref.as_str().as_bytes().len() > 128 {
        proof {
            if req.customer_ref@.len() != 0 {
                assert(req.customer_ref@ =~= seq![req.customer_ref@[0]] + req.customer_ref@.drop_first());
            }
        }
        return Err("upsert-invoice: bad input: customer_ref must be 1-128 chars".to_owned());
    }
    proof {
        if req.customer_ref@.len() == 0 {
            assert(vstd::utf8::encode_utf8(req.customer_ref@).len() == 0);
        }
    }
    if contains_at_sign(req.customer_ref.as_str()) {
        return Err(
            "upsert-invoice: bad input: customer_ref must be an opaque business reference, not an email address \u{2014} customer contact details live in the user profile and never enter this contract".to_owned(),
        );
    }
    if !check_amount(req.amount.as_str()) {
        return Err(
            quoted_message(
                "upsert-invoice: bad input: amount must be a decimal string like \"1250.00\", got \"",
                req.amount.as_str(),
            ),
        );
    }
    if !check_currency(req.currency.as_str()) {
        return Err(
            quoted_message(
                "upsert-invoice: bad input: currency must be a 3-letter uppercase code, got \"",
                req.currency.as_str(),
            ),
        );
    }
    match parse_due_date(req.due_date.as_str()) {
        Ok(_) => Ok(()),
        Err(e) => {
            let mut msg = "upsert-invoice: bad input: ".to_owned();
            msg.append(e.as_str());
            Err(msg)
        },
    }
}


// ---------------------------------------------------------------------------
// Upsert merge
// ---------------------------------------------------------------------------

/// The record an upsert leaves behind. Business fields come from the request;
/// bookkeeping (created_at, reminder history) survives from the stored record.
/// A new record is open unless the request says otherwise.
pub open spec fn upserted(req: UpsertReq, existing: Option<Invoice>, now: u64) -> Invoice {
    match existing {
        Some(prev) => Invoice {
            invoice_id: prev.invoice_id,
            customer_ref: req.customer_ref,
            amount: req.amount,
            currency: req.currency,
            due_date: req.due_date,
            status: match req.status {
                Some(s) => s,
                None => prev.status,
            },
            created_at_epoch_secs: prev.created_at_epoch_secs,
            reminded_at_epoch_secs: prev.reminded_at_epoch_secs,
            reminder_count: prev.reminder_count,
        },
        None => Invoice {
            invoice_id: req.invoice_id,
            customer_ref: req.customer_ref,
            amount: req.amount,
            currency: req.currency,
            due_date: req.due_date,
            status: match req.status {
                Some(s) => s,
                None => Status::Open,
            },
            created_at_epoch_secs: now,
            reminded_at_epoch_secs: None,
            reminder_count: 0,
        },
    }
}

/// Merges an upsert request into the record stored under its id (if any).
/// Returns the record to store and whether it is new.
pub fn merge_upsert(req: UpsertReq, existing: Option<Invoice>, now: u64) -> (res: (Invoice, bool))
    ensures
        res.0 == upserted(req, existing, now),
        res.1 == existing.is_none(),
        req.status matches Some(s) ==> res.0.status == s,
        req.status is None ==> res.0.status == (match existing {
            Some(prev) => prev.status,
            None => Status::Open,
        }),
{
    let created = existing.is_none();
    let inv = match existing {
        Some(prev) => Invoice {
            customer_ref: req.customer_ref,
            amount: req.amount,
            currency: req.currency,
            due_date: req.due_date,
            status: match req.status {
                Some(s) => s,
                None => prev.status,
            },
            ..prev
        },
        None => Invoice {
            invoice_id: req.invoice_id,
            customer_ref: req.customer_ref,
            amount: req.amount,
            currency: req.currency,
            due_date: req.due_date,
            status: match req.status {
                Some(s) => s,
                None => Status::Open,
            },
            created_at_epoch_secs: now,
            reminded_at_epoch_secs: None,
            reminder_count: 0,
        },
    };
    (inv, created)
}


// ---------------------------------------------------------------------------
// Laws
// ---------------------------------------------------------------------------

/// Once an invoice is overdue it stays overdue as time goes on, as long as
/// the record does not change.
pub proof fn law_overdue_persists(inv: Invoice, t1: u64, t2: u64)
    requires
        t1 <= t2,
        invoice_is_overdue(inv, t1),
    ensures
        invoice_is_overdue(inv, t2),
{
    vstd::arithmetic::div_mod::lemma_div_is_ordered(t1 as int, t2 as int, 86400);
}

/// An invoice is overdue from the first second of the day after its due day,
/// not before: at any time within the due day it is not overdue.
pub proof fn law_overdue_starts_after_due_day(inv: Invoice, now: u64)
    requires
        inv.status == Status::Open,
        dates::is_valid_due_date(inv.due_date@),
    ensures
        invoice_is_overdue(inv, now) <==> now >= (dates::due_date_day(inv.due_date@) + 1) * 86400,
{
    let day = dates::due_date_day(inv.due_date@);
    vstd::arithmetic::div_mod::lemma_fundamental_div_mod(now as int, 86400);
    assert(day < now / 86400 <==> now >= (day + 1) * 86400) by (nonlinear_arith)
        requires
            now == 86400 * (now / 86400) + now % 86400,
            0 <= now % 86400 < 86400,
    ;
}

/// A request that passes validation carries an opaque customer reference
/// (no `@`, so no email address), a decimal amount, a currency code and a
/// real due date.
pub proof fn law_accepted_upsert_is_business_data(req: UpsertReq)
    requires
        upsert_rejection(req) is None,
    ensures
        is_valid_invoice_id(req.invoice_id@),
        has_valid_customer_ref_length(req.customer_ref@),
        !req.customer_ref@.contains('@'),
        is_decimal_amount(vstd::utf8::encode_utf8(req.amount@)),
        is_currency_code(vstd::utf8::encode_utf8(req.currency@)),
        dates::is_valid_due_date(req.due_date@),
{
}

/// An upsert replaces the business fields and keeps the bookkeeping: the
/// id, creation time and reminder history of a stored record survive.
pub proof fn law_upsert_keeps_bookkeeping(req: UpsertReq, prev: Invoice, now: u64)
    ensures
        upserted(req, Some(prev), now).invoice_id == prev.invoice_id,
        upserted(req, Some(prev), now).created_at_epoch_secs == prev.created_at_epoch_secs,
        upserted(req, Some(prev), now).reminded_at_epoch_secs == prev.reminded_at_epoch_secs,
        upserted(req, Some(prev), now).reminder_count == prev.reminder_count,
        upserted(req, Some(prev), now).customer_ref == req.customer_ref,
        upserted(req, Some(prev), now).amount == req.amount,
        upserted(req, Some(prev), now).currency == req.currency,
        upserted(req, Some(prev), now).due_date == req.due_date,
{
}

/// Sending the same upsert again, at any later time, leaves the record as
/// the first one left it.
pub proof fn law_upsert_repeat_changes_nothing(req: UpsertReq, existing: Option<Invoice>, t1: u64, t2: u64)
    ensures
        upserted(req, Some(upserted(req, existing, t1)), t2) == upserted(req, existing, t1),
{
}


/// An invoice id is accepted exactly when it is 1 to 64 bytes long and each
/// byte is an ASCII letter, an ASCII digit, `.`, `_` or `-`.
pub proof fn law_invoice_id_alphabet(id: Seq<char>)
    ensures
        is_valid_invoice_id(id) <==> {
            let b = vstd::utf8::encode_utf8(id);
            &&& 1 <= b.len() <= 64
            &&& forall|i: int|
                0 <= i < b.len() ==> {
                    let c = #[trigger] b[i];
                    ||| ('a' as u8) <= c <= ('z' as u8)
                    ||| ('A' as u8) <= c <= ('Z' as u8)
                    ||| ('0' as u8) <= c <= ('9' as u8)
                    ||| c == '.' as u8
                    ||| c == '_' as u8
                    ||| c == '-' as u8
                }
        },
{
}

/// Stated over the characters: a text of 1 to 64 characters, each an ASCII
/// letter, digit, `.`, `_` or `-`, passes the invoice-id rule, so an upsert
/// is never refused for such an id.
pub proof fn law_invoice_id_characters_accepted(id: Seq<char>)
    requires
        1 <= id.len() <= 64,
        forall|i: int|
            0 <= i < id.len() ==> {
                let c = #[trigger] id[i];
                ||| 'a' <= c <= 'z'
                ||| 'A' <= c <= 'Z'
                ||| '0' <= c <= '9'
                ||| c == '.'
                ||| c == '_'
                ||| c == '-'
            },
    ensures
        is_valid_invoice_id(id),
{
    assert(vstd::utf8::is_ascii_chars(id));
    vstd::utf8::is_ascii_chars_encode_utf8(id);
    let b = vstd::utf8::encode_utf8(id);
    assert forall|i: int| 0 <= i < b.len() implies is_id_byte(#[trigger] b[i]) by {
        assert(id[i] as u8 == b[i]);
    }
}

/// The status of an upserted record is the request's status when the request
/// carries one, stored record or not; without one, a stored record keeps its
/// status and a new record is open.
pub proof fn law_upsert_status(req: UpsertReq, existing: Option<Invoice>, now: u64)
    ensures
        req.status matches Some(s) ==> upserted(req, existing, now).status == s,
        (req.status is None && existing is Some) ==> upserted(req, existing, now).status == existing->Some_0.status,
        req.status is None && existing is None ==> upserted(req, existing, now).status == Status::Open,
{
}


/// A new record takes everything from the request: its id and business
/// fields, the creation time now, and no reminder history yet.
pub proof fn law_upsert_creates_fresh_record(req: UpsertReq, now: u64)
    ensures
        upserted(req, None, now).invoice_id == req.invoice_id,
        upserted(req, None, now).customer_ref == req.customer_ref,
        upserted(req, None, now).amount == req.amount,
        upserted(req, None, now).currency == req.currency,
        upserted(req, None, now).due_date == req.due_date,
        upserted(req, None, now).created_at_epoch_secs == now,
        upserted(req, None, now).reminded_at_epoch_secs is None,
        upserted(req, None, now).reminder_count == 0,
{
}

/// A currency is accepted exactly when it is three ASCII capital letters.
pub proof fn law_currency_is_three_capitals(b: Seq<u8>)
    ensures
        is_currency_code(b) <==> (b.len() == 3 && forall|i: int|
            0 <= i < b.len() ==> ('A' as u8) <= #[trigger] b[i] <= ('Z' as u8)),
{
}

/// An amount is accepted exactly when it has 1 to 20 bytes, each a digit or
/// a `.`, starts with a digit, holds at most one `.`, and a `.` is followed by
/// 1 to 4 bytes.
pub proof fn law_amount_shape(b: Seq<u8>)
    ensures
        is_decimal_amount(b) <==> {
            &&& 1 <= b.len() <= 20
            &&& ('0' as u8) <= b[0] <= ('9' as u8)
            &&& forall|i: int| 0 <= i < b.len() ==> (('0' as u8) <= #[trigger] b[i] <= ('9' as u8) || b[i] == '.' as u8)
            &&& forall|i: int, j: int| 0 <= i < j < b.len() ==> !(#[trigger] b[i] == '.' as u8 && #[trigger] b[j] == '.' as u8)
            &&& forall|i: int| 0 <= i < b.len() && #[trigger] b[i] == '.' as u8 ==> 2 <= b.len() - i <= 5
        },
{
    let shape = {
        &&& 1 <= b.len() <= 20
        &&& ('0' as u8) <= b[0] <= ('9' as u8)
        &&& forall|i: int| 0 <= i < b.len() ==> (('0' as u8) <= #[trigger] b[i] <= ('9' as u8) || b[i] == '.' as u8)
        &&& forall|i: int, j: int| 0 <= i < j < b.len() ==> !(#[trigger] b[i] == '.' as u8 && #[trigger] b[j] == '.' as u8)
        &&& forall|i: int| 0 <= i < b.len() && #[trigger] b[i] == '.' as u8 ==> 2 <= b.len() - i <= 5
    };
    if is_decimal_amount(b) {
        if b.len() >= 1 && dates::all_digit_bytes(b, 0, b.len() as int) {
            assert(dates::is_digit_byte(b[0]));
            assert forall|i: int| 0 <= i < b.len() implies (('0' as u8) <= #[trigger] b[i] <= ('9' as u8) || b[i] == '.' as u8) by {
                assert(dates::is_digit_byte(b[i]));
            }
            assert forall|i: int, j: int| 0 <= i < j < b.len() implies !(#[trigger] b[i] == '.' as u8 && #[trigger] b[j] == '.' as u8) by {
                assert(dates::is_digit_byte(b[i]));
            }
            assert forall|i: int| 0 <= i < b.len() && #[trigger] b[i] == '.' as u8 implies 2 <= b.len() - i <= 5 by {
                assert(dates::is_digit_byte(b[i]));
            }
        } else {
            let p = choose|p: int|
                1 <= p && p + 2 <= b.len() <= p + 5 && #[trigger] b[p] == 46 && dates::all_digit_bytes(b, 0, p)
                    && dates::all_digit_bytes(b, p + 1, b.len() as int);
            assert(dates::is_digit_byte(b[0]));
            assert forall|i: int| 0 <= i < b.len() implies (('0' as u8) <= #[trigger] b[i] <= ('9' as u8) || b[i] == '.' as u8) by {
                if i < p {
                    assert(dates::is_digit_byte(b[i]));
                } else if i > p {
                    assert(dates::is_digit_byte(b[i]));
                }
            }
            assert forall|i: int| 0 <= i < b.len() && #[trigger] b[i] == '.' as u8 implies i == p by {
                if i < p {
                    assert(dates::is_digit_byte(b[i]));
                } else if i > p {
                    assert(dates::is_digit_byte(b[i]));
                }
            }
            assert forall|i: int, j: int| 0 <= i < j < b.len() implies !(#[trigger] b[i] == '.' as u8 && #[trigger] b[j] == '.' as u8) by {
                if b[i] == '.' as u8 && b[j] == '.' as u8 {
                    if i < p {
                        assert(dates::is_digit_byte(b[i]));
                    } else if i > p {
                        assert(dates::is_digit_byte(b[i]));
                    }
                    if j < p {
                        assert(dates::is_digit_byte(b[j]));
                    } else if j > p {
                        assert(dates::is_digit_byte(b[j]));
                    }
                }
            }
        }
        assert(shape);
    }
    if shape {
        if exists|q: int| 0 <= q < b.len() && #[trigger] b[q] == 46 {
            let p = choose|q: int| 0 <= q < b.len() && #[trigger] b[q] == 46;
            assert(p >= 1);
            assert forall|i: int| 0 <= i < p implies dates::is_digit_byte(#[trigger] b[i]) by {
                assert(('0' as u8) <= b[i] <= ('9' as u8) || b[i] == '.' as u8);
                if b[i] == '.' as u8 {
                    assert(!(b[i] == '.' as u8 && b[p] == '.' as u8));
                }
            }
            assert forall|i: int| p + 1 <= i < b.len() implies dates::is_digit_byte(#[trigger] b[i]) by {
                assert(('0' as u8) <= b[i] <= ('9' as u8) || b[i] == '.' as u8);
                if b[i] == '.' as u8 {
                    assert(!(b[p] == '.' as u8 && b[i] == '.' as u8));
                }
            }
            assert(dates::all_digit_bytes(b, 0, p));
            assert(dates::all_digit_bytes(b, p + 1, b.len() as int));
        } else {
            assert forall|i: int| 0 <= i < b.len() implies dates::is_digit_byte(#[trigger] b[i]) by {
                assert(('0' as u8) <= b[i] <= ('9' as u8) || b[i] == '.' as u8);
            }
            assert(dates::all_digit_bytes(b, 0, b.len() as int));
        }
    }
}

/// A request passes validation exactly when every rule holds: the id rule,
/// a customer reference of 1 to 128 bytes without `@`, an accepted amount and
/// currency, and a real due date. No other rule refuses a request.
pub proof fn law_upsert_accepted_iff_rules_hold(req: UpsertReq)
    ensures
        upsert_rejection(req) is None <==> {
            &&& is_valid_invoice_id(req.invoice_id@)
            &&& req.customer_ref@.len() >= 1
            &&& vstd::utf8::encode_utf8(req.customer_ref@).len() <= 128
            &&& !req.customer_ref@.contains('@')
            &&& is_decimal_amount(vstd::utf8::encode_utf8(req.amount@))
            &&& is_currency_code(vstd::utf8::encode_utf8(req.currency@))
            &&& dates::is_valid_due_date(req.due_date@)
        },
{
}

} // verus!
